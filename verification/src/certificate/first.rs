//! The prime 276602624281642239937218680557139826668747, by an element of
//! order 19757330305831588566944191468367130476339.

use crate::primality::{
    chain_residue, is_prime, lemma_chain_end, lemma_chain_multiply, lemma_chain_square,
    lemma_chain_start, lemma_prime_by_element,
};
use vstd::prelude::*;

verus! {

/// The number that is shown to be prime.
pub open spec fn modulus() -> int {
    276602624281642239937218680557139826668747int
}

/// The element whose powers are followed.
pub open spec fn base() -> int {
    16384int
}

/// One squaring: from the power with exponent `e` to that with `2 * e`.
proof fn square(e: int, h: int, k: int, r: int)
    requires
        e >= 0,
        chain_residue(base(), e, modulus()) == h,
        h * h == k * modulus() + r,
        0 <= r < modulus(),
    ensures
        chain_residue(base(), 2 * e, modulus()) == r,
{
    lemma_chain_square(base(), e, modulus(), h, k, r);
}

/// One multiplication by the base: from the exponent `e` to `e + 1`.
proof fn multiply(e: int, h: int, k: int, r: int)
    requires
        e >= 0,
        chain_residue(base(), e, modulus()) == h,
        h * base() == k * modulus() + r,
        0 <= r < modulus(),
    ensures
        chain_residue(base(), e + 1, modulus()) == r,
{
    lemma_chain_multiply(base(), e, modulus(), h, k, r);
}

/// A stretch of the chain.
proof fn power_0()
    ensures
        chain_residue(base(), 1857int, modulus()) == 19078955127170863656147796188307676594413int,
{
    lemma_chain_start(base(), modulus());
    square(0int, 1int, 0int, 1int);
    multiply(0int, 1int, 0int, 16384int);
    square(1int, 16384int, 0int, 268435456int);
    multiply(2int, 268435456int, 0int, 4398046511104int);
    square(3int, 4398046511104int, 0int, 19342813113834066795298816int);
    multiply(6int, 19342813113834066795298816int, 0int, 316912650057057350374175801344int);
    square(7int, 316912650057057350374175801344int, 363097161594256583int, 128046162491301585682529114334775687094835int);
    square(14int, 128046162491301585682529114334775687094835int, 59275720074348472298188294917894372743990int, 45258049909596233525210576034327118596695int);
    multiply(28int, 45258049909596233525210576034327118596695int, 2680int, 212856644023487045304013853280775616008920int);
    square(29int, 212856644023487045304013853280775616008920int, 163801594517078895452742343591837327292910int, 156582828171149672818525621127440707882630int);
    square(58int, 156582828171149672818525621127440707882630int, 88640453581202786044539279840987789484414int, 38040715825432232641621273725291558307642int);
    square(116int, 38040715825432232641621273725291558307642int, 5231678709735698669162930349942935788902int, 229205397139989240296261408333576042754370int);
    square(232int, 229205397139989240296261408333576042754370int, 189929919191973753448342369342910802228849int, 170289275614754799094148000367877744014697int);
    square(464int, 170289275614754799094148000367877744014697int, 104837896837418083797181255279412209498456int, 172957589150197174153788676534433232047177int);
    square(928int, 172957589150197174153788676534433232047177int, 108149110017803177682194430388100377995927int, 129000227727731660536129399776202009475860int);
    multiply(1856int, 129000227727731660536129399776202009475860int, 7641int, 19078955127170863656147796188307676594413int);
}

/// A stretch of the chain.
proof fn power_1()
    ensures
        chain_residue(base(), 1902561int, modulus()) == 65261646349581118816137277634230855004372int,
{
    power_0();
    square(1857int, 19078955127170863656147796188307676594413int, 1315990872067651712660252637849224689672int, 65049480122656967967290279520041086733585int);
    multiply(3714int, 65049480122656967967290279520041086733585int, 3853int, 20770972444212697980363469693412888374449int);
    square(3715int, 20770972444212697980363469693412888374449int, 1559758506987082455317269687013837201886int, 159771584166685092106670845533638550396759int);
    multiply(7430int, 159771584166685092106670845533638550396759int, 9463int, 207001409788032549794759110919829934146595int);
    square(7431int, 207001409788032549794759110919829934146595int, 154913872438906031060315728105291646341241int, 11453671732622107831886107274391118198998int);
    multiply(14862int, 11453671732622107831886107274391118198998int, 678int, 120378404327176040187716165883278090972766int);
    square(14863int, 120378404327176040187716165883278090972766int, 52389091629160011446621733912437426472028int, 32850872644459226921124979624512136381840int);
    multiply(29726int, 32850872644459226921124979624512136381840int, 1945int, 236593179025817197821332484369879609353645int);
    square(29727int, 236593179025817197821332484369879609353645int, 202370937394094217651532607750986393939697int, 222792593861690472580400425890713962236366int);
    multiply(59454int, 222792593861690472580400425890713962236366int, 13196int, 185627809385704545742869161440404559835132int);
    square(59455int, 185627809385704545742869161440404559835132int, 124574680760259051321085286824209396237895int, 23240114245615629934858104926018847889859int);
    square(118910int, 23240114245615629934858104926018847889859int, 1952631185448635220546017909998970199086int, 186287183198737183961899297779414230874639int);
    square(237820int, 186287183198737183961899297779414230874639int, 125461263117969112920739630217029924906186int, 110599954263651227414905217420636060211379int);
    square(475640int, 110599954263651227414905217420636060211379int, 44223549631497797148830664353353080020855int, 211491138720364449541493541816222224362956int);
    square(951280int, 211491138720364449541493541816222224362956int, 161706715087753460665899231043556264620500int, 224811145421185159187183843235870859544436int);
    multiply(1902560int, 224811145421185159187183843235870859544436int, 13316int, 65261646349581118816137277634230855004372int);
}

/// A stretch of the chain.
proof fn power_2()
    ensures
        chain_residue(base(), 1948223182int, modulus()) == 10359315687701979694731648996322808435150int,
{
    power_1();
    square(1902561int, 65261646349581118816137277634230855004372int, 15397838308002142813639765081154319761883int, 133143985995119585506645214175665981143783int);
    multiply(3805122int, 133143985995119585506645214175665981143783int, 7886int, 142771459008584795968674180506761950001830int);
    square(3805123int, 142771459008584795968674180506761950001830int, 73693044526883933548868922224786690580797int, 71097245186706638388972136744249845097541int);
    square(7610246int, 71097245186706638388972136744249845097541int, 18274657683622570175228412041764203964808int, 241030622080470304725751750447919542791105int);
    multiply(15220492int, 241030622080470304725751750447919542791105int, 14276int, 266647921700855282982795704985623566432148int);
    square(15220493int, 266647921700855282982795704985623566432148int, 257051480737178020898524797544870795519263int, 74714988965484642250066147384426929320443int);
    multiply(30440986int, 74714988965484642250066147384426929320443int, 4425int, 163766764233466902891097281107076976932637int);
    square(30440987int, 163766764233466902891097281107076976932637int, 96960587908926479545478321153398959816869int, 196079291540063951768178782995495790080626int);
    square(60881974int, 196079291540063951768178782995495790080626int, 138997555322200457431858808482552263172865int, 269881956793750849871368796194774026601721int);
    square(121763948int, 269881956793750849871368796194774026601721int, 263324582664337541562215264162043513144879int, 173662895392571043244914219207623407765228int);
    multiply(243527896int, 173662895392571043244914219207623407765228int, 10286int, 158284750911892530443219286961655710763910int);
    square(243527897int, 158284750911892530443219286961655710763910int, 90577818761868735861929324148240006117821int, 205311993634834726308534196140625338047813int);
    multiply(487055794int, 205311993634834726308534196140625338047813int, 12161int, 67189824080875962507895312628106456735925int);
    square(487055795int, 67189824080875962507895312628106456735925int, 16321148332353978700293583753053025918266int, 59437719352936757308468699262419706972923int);
    multiply(974111590int, 59437719352936757308468699262419706972923int, 3520int, 186356407135147162941413154352289170380992int);
    square(974111591int, 186356407135147162941413154352289170380992int, 125554522740027482181534078298697172747862int, 10359315687701979694731648996322808435150int);
}

/// A stretch of the chain.
proof fn power_3()
    ensures
        chain_residue(base(), 997490270067int, modulus()) == 191381546392458713741872130537713007565714int,
{
    power_2();
    multiply(1948223182int, 10359315687701979694731648996322808435150int, 613int, 169619542662542236968285974226179653555689int);
    square(1948223183int, 169619542662542236968285974226179653555689int, 104014881737907886730406462442880390475899int, 88770425473717102330073580141157464236168int);
    multiply(3896446366int, 88770425473717102330073580141157464236168int, 5258int, 38052488506106986029714663282685421104786int);
    square(3896446367int, 38052488506106986029714663282685421104786int, 5234917366630008644979915944392903503711int, 167021008132590084184356188932127109885679int);
    square(7792892734int, 167021008132590084184356188932127109885679int, 100852322822586270683778869227331415259278int, 238470629412942863109933034601562424906375int);
    multiply(15585785468int, 238470629412942863109933034601562424906375int, 14125int, 90724323459230079928976042398717969996625int);
    square(15585785469int, 90724323459230079928976042398717969996625int, 29757139465004272712281763724193576019322int, 181051006539418147678400783440602345861091int);
    multiply(31171570938int, 181051006539418147678400783440602345861091int, 10724int, 53148345495550476185305596061333392472116int);
    square(31171570939int, 53148345495550476185305596061333392472116int, 10212291500308355494680416155293846620969int, 56126757288505501449105608964960210361613int);
    multiply(62343141878int, 56126757288505501449105608964960210361613int, 3324int, 153668302695330190831403109975302717752364int);
    square(62343141879int, 153668302695330190831403109975302717752364int, 85371378216641349739390380498900830136794int, 196524524301035589442061411997502693011378int);
    square(124686283758int, 196524524301035589442061411997502693011378int, 139629509127226357126016143151406175465317int, 229881456116400381587573961812243291111085int);
    square(249372567516int, 229881456116400381587573961812243291111085int, 191051997440155166086342572401858090307779int, 198939929557772276389981823102148299594312int);
    multiply(498745135032int, 198939929557772276389981823102148299594312int, 11783int, 223083963950463193214476700819162915361907int);
    square(498745135033int, 223083963950463193214476700819162915361907int, 179920400614776441599025649407335260123112int, 196827684046739361077992996219828723895985int);
    multiply(997490270066int, 196827684046739361077992996219828723895985int, 11658int, 191381546392458713741872130537713007565714int);
}

/// A stretch of the chain.
proof fn power_4()
    ensures
        chain_residue(base(), 1021430036549391int, modulus()) == 110417380625061043306774422962641759192131int,
{
    power_3();
    square(997490270067int, 191381546392458713741872130537713007565714int, 132417023861185784347878097714561095251789int, 128815811421782265044101214862988966191413int);
    multiply(1994980540134int, 128815811421782265044101214862988966191413int, 7630int, 40231065550339761575771664234344597570982int);
    square(1994980540135int, 40231065550339761575771664234344597570982int, 5851494140806512472406410044659973101287int, 27033223207280863131336689560106900066935int);
    multiply(3989961080270int, 27033223207280863131336689560106900066935int, 1601int, 71527553180435404333214180810588199999093int);
    square(3989961080271int, 71527553180435404333214180810588199999093int, 18496537685667828735865799137818552333283int, 177203124340802378142286253664959216816248int);
    square(7979922160542int, 177203124340802378142286253664959216816248int, 113523678084011253926276819441624867357644int, 94955108111828857457388406753848630445436int);
    square(15959844321084int, 94955108111828857457388406753848630445436int, 32597205395088213422390752958719246589226int, 166354322724186057572616354449790292110274int);
    square(31919688642168int, 166354322724186057572616354449790292110274int, 100048800190863979491208303827303741288127int, 181934842475584728327876263625611063288207int);
    square(63839377284336int, 181934842475584728327876263625611063288207int, 119667291633908957331787676819699677901661int, 122875637147842137191113471789202457186082int);
    multiply(127678754568672int, 122875637147842137191113471789202457186082int, 7278int, 80539508453353476125564699429400041626822int);
    square(127678754568673int, 80539508453353476125564699429400041626822int, 23451015473023855020948811156949036405665int, 65490088489617938949991376405628840567929int);
    multiply(255357509137346int, 65490088489617938949991376405628840567929int, 3879int, 48030225410063040187449148677536216879123int);
    square(255357509137347int, 48030225410063040187449148677536216879123int, 8340132559959126495365164481227654514958int, 69291391036706269475487662633618770631503int);
    multiply(510715018274694int, 69291391036706269475487662633618770631503int, 4104int, 92980693535766384044399582708089378007464int);
    square(510715018274695int, 92980693535766384044399582708089378007464int, 31255702626990199982605082156112362728310int, 37131322520505148111892740049323310583726int);
    multiply(1021430036549390int, 37131322520505148111892740049323310583726int, 2199int, 110417380625061043306774422962641759192131int);
}

/// A stretch of the chain.
proof fn power_5()
    ensures
        chain_residue(base(), 2091888714853154692int, modulus()) == 13882431832298935965867811001218438457642int,
{
    power_4();
    square(1021430036549391int, 110417380625061043306774422962641759192131int, 44077665480445599234757524061126779425518int, 64612296707930712990014464899793427435215int);
    multiply(2042860073098782int, 64612296707930712990014464899793427435215int, 3827int, 49626136891949388661102426041398437267791int);
    square(2042860073098783int, 49626136891949388661102426041398437267791int, 8903579527542284080439503095991361160232int, 212558701570098408045965137477355592350377int);
    multiply(4085720146197566int, 212558701570098408045965137477355592350377int, 12590int, 134726818616516615509624214603607309052038int);
    square(4085720146197567int, 134726818616516615509624214603607309052038int, 65622355180714919683924177378812216626728int, 168355578252093023800050628436992389483628int);
    multiply(8171440292395134int, 168355578252093023800050628436992389483628int, 9972int, 56424745755685286084813795884957759016068int);
    square(8171440292395135int, 56424745755685286084813795884957759016068int, 11510201473547719421117749073037810680725int, 31646897924224410456942434198710329379049int);
    multiply(16342880584790270int, 31646897924224410456942434198710329379049int, 1874int, 149457686695183284197034547590001369106938int);
    square(16342880584790271int, 149457686695183284197034547590001369106938int, 80757007169718614445655159218202654624669int, 254287140704528376812913291741167802216101int);
    square(32685761169580542int, 254287140704528376812913291741167802216101int, 233772004497847936150341266316948410675301int, 149449149989845418144215673369975202124354int);
    square(65371522339161084int, 149449149989845418144215673369975202124354int, 80747782096041599832063545892083566857947int, 269580295304946393845596091429171706434907int);
    square(130743044678322168int, 269580295304946393845596091429171706434907int, 262736247732431046616153534247274042581798int, 268452504038579681521689082691830230431543int);
    square(261486089356644336int, 268452504038579681521689082691830230431543int, 260542527793242695669200863894951856574262int, 194723784469656683947374535230089129371135int);
    multiply(522972178713288672int, 194723784469656683947374535230089129371135int, 11534int, 19816286393514357904123663729534819347942int);
    square(522972178713288673int, 19816286393514357904123663729534819347942int, 1419672743342964331782953157089332601957int, 179181359966283914376780111898957016697485int);
    square(1045944357426577346int, 179181359966283914376780111898957016697485int, 116072505974043439558227072615814846175389int, 13882431832298935965867811001218438457642int);
}

/// A stretch of the chain.
proof fn power_6()
    ensures
        chain_residue(base(), 4284188088019260811624int, modulus()) == 196818908195318338316021603610771061578221int,
{
    power_5();
    multiply(2091888714853154692int, 13882431832298935965867811001218438457642int, 822int, 82405980875845636384460025993958168296494int);
    square(2091888714853154693int, 82405980875845636384460025993958168296494int, 24550546842230121984477077021628486712742int, 96354664049196546040056698114747314617762int);
    square(4183777429706309386int, 96354664049196546040056698114747314617762int, 33565195949045488298404058598685433395086int, 175589492201661397657379091765942466311402int);
    square(8367554859412618772int, 175589492201661397657379091765942466311402int, 111465572142381033116814724958473790251794int, 115085714156075509319180187710534274723486int);
    multiply(16735109718825237544int, 115085714156075509319180187710534274723486int, 6816int, 240853629467637273365668771928498495415072int);
    square(16735109718825237545int, 240853629467637273365668771928498495415072int, 209724947398425641667988636390266337768472int, 129547934204749376356626051318856040420600int);
    square(33470219437650475090int, 129547934204749376356626051318856040420600int, 60674287889725988585136932305238735100114int, 85511959634408555521853914206102744422842int);
    multiply(66940438875300950180int, 85511959634408555521853914206102744422842int, 5065int, 35654663631828388041913330874142546639773int);
    square(66940438875300950181int, 35654663631828388041913330874142546639773int, 4595961596533549079524519788809273531644int, 103872709401278521718246314335673015161461int);
    multiply(133880877750601900362int, 103872709401278521718246314335673015161461int, 6152int, 191126249884239737978291288142466739245480int);
    square(133880877750601900363int, 191126249884239737978291288142466739245480int, 132063979832736710985907303527546684754606int, 191392219603236977269644445288911555931718int);
    square(267761755501203800726int, 191392219603236977269644445288911555931718int, 132431793876819120929608735951402236639313int, 18894086763688722197278536157145709780713int);
    multiply(535523511002407601452int, 18894086763688722197278536157145709780713int, 1119int, 42380965118357990463832855235843004873899int);
    square(535523511002407601453int, 42380965118357990463832855235843004873899int, 6493597842855624084503741333218917850750int, 263287973105875784327824598646843455951951int);
    square(1071047022004815202906int, 263287973105875784327824598646843455951951int, 250614241141894641125155855430851603776919int, 185288152265024854084230430261620523455908int);
    square(2142094044009630405812int, 185288152265024854084230430261620523455908int, 124119210578529517053081931473024691164169int, 196818908195318338316021603610771061578221int);
}

/// A stretch of the chain.
proof fn power_7()
    ensures
        chain_residue(base(), 4387008602131723071103450int, modulus()) == 257736586757357673590363095270690735585252int,
{
    power_6();
    square(4284188088019260811624int, 196818908195318338316021603610771061578221int, 140048138457839346973488952920570924459745int, 247143116849247193694768378511335250435326int);
    square(8568376176038521623248int, 247143116849247193694768378511335250435326int, 220821188391069196816884632689459136046601int, 185880032010798095085925242220387326447329int);
    multiply(17136752352077043246496int, 185880032010798095085925242220387326447329int, 11010int, 63551124034928179021495604716464890133866int);
    square(17136752352077043246497int, 63551124034928179021495604716464890133866int, 14601254693775052530050747298243378547876int, 150246439609778820325187706545964067674584int);
    multiply(34273504704154086492994int, 150246439609778820325187706545964067674584int, 8899int, 150913084281899006566345771087967255204703int);
    square(34273504704154086492995int, 150913084281899006566345771087967255204703int, 82337465404109271238249157444441921132623int, 162636372220142010385812201844467157084828int);
    multiply(68547009408308172985990int, 162636372220142010385812201844467157084828int, 9633int, 121242749747000845919565212821951377782101int);
    square(68547009408308172985991int, 121242749747000845919565212821951377782101int, 53144124732693220430253911169392293332700int, 251823978872591522073176799091318272847301int);
    square(137094018816616345971982int, 251823978872591522073176799091318272847301int, 229265056685263756472278603836109825938950int, 41252642765942008692888708283695767988951int);
    multiply(274188037633232691943964int, 41252642765942008692888708283695767988951int, 2443int, 143087957141878257663359918978866179224263int);
    square(274188037633232691943965int, 143087957141878257663359918978866179224263int, 74020134596368805870378310243988726715112int, 212148644943478228026129059192577384888505int);
    multiply(548376075266465383887930int, 212148644943478228026129059192577384888505int, 12566int, 54822030830900929008565930168812093791118int);
    square(548376075266465383887931int, 54822030830900929008565930168812093791118int, 10865605748425721599105139180916456658968int, 121598829776792132285012046909904932816828int);
    square(1096752150532930767775862int, 121598829776792132285012046909904932816828int, 53456743013506596690401866191316916835891int, 158887219052482378063574042879780382383007int);
    multiply(2193504301065861535551724int, 158887219052482378063574042879780382383007int, 9411int, 100899841336162144432115819078876183608671int);
    square(2193504301065861535551725int, 100899841336162144432115819078876183608671int, 36806512621139943708374460516435321460087int, 257736586757357673590363095270690735585252int);
}

/// A stretch of the chain.
proof fn power_8()
    ensures
        chain_residue(base(), 17969187234331537699239735472int, modulus()) == 21987074179605161780494059615617755150170int,
{
    power_7();
    multiply(4387008602131723071103450int, 257736586757357673590363095270690735585252int, 15266int, 140575148997689222928575529700417903677066int);
    square(4387008602131723071103451int, 140575148997689222928575529700417903677066int, 71443185208543454119144706518019195906780int, 89796105950058974751654834600658262963696int);
    square(8774017204263446142206902int, 89796105950058974751654834600658262963696int, 29151352647992104918049081344336429093995int, 172950893879820542275660221907949222106151int);
    square(17548034408526892284413804int, 172950893879820542275660221907949222106151int, 108140737173093293796198827343241660565384int, 269934664790212557605756126785579009180953int);
    square(35096068817053784568827608int, 269934664790212557605756126785579009180953int, 263427447388250816929509491059946799754559int, 27516400033870082315037385751401701920636int);
    square(70192137634107569137655216int, 27516400033870082315037385751401701920636int, 2737328587501100901870616233236699709780int, 271124824479549663869625298891732146398836int);
    multiply(140384275268215138275310432int, 271124824479549663869625298891732146398836int, 16059int, 147580934048961688146105975031010125120951int);
    square(140384275268215138275310433int, 147580934048961688146105975031010125120951int, 78741596003756710063986075840450997119879int, 135185461497543084738727777066100397422788int);
    square(280768550536430276550620866int, 135185461497543084738727777066100397422788int, 66069904606890597961789573281443333757547int, 122525640240886087560164257471585241409335int);
    multiply(561537101072860553101241732int, 122525640240886087560164257471585241409335int, 7257int, 154845294799923361335229611288873115447661int);
    square(561537101072860553101241733int, 154845294799923361335229611288873115447661int, 86684157042780811110897811759597046620913int, 122018040623194784879048055077350696664910int);
    multiply(1123074202145721106202483466int, 122018040623194784879048055077350696664910int, 7227int, 136411886994887432043930000864286822850871int);
    square(1123074202145721106202483467int, 136411886994887432043930000864286822850871int, 67274137264000431921219449723216333868445int, 72887351071505606681905177761951814470226int);
    square(2246148404291442212404966934int, 72887351071505606681905177761951814470226int, 19206491478589697793799245435857141891388int, 79322201675136737840184915326314112440240int);
    square(4492296808582884424809933868int, 79322201675136737840184915326314112440240int, 22747476438200439059184939626688318388009int, 116027735722919920965645284725924111402877int);
    square(8984593617165768849619867736int, 116027735722919920965645284725924111402877int, 48670671480253313214092403555776351255597int, 21987074179605161780494059615617755150170int);
}

/// A stretch of the chain.
proof fn power_9()
    ensures
        chain_residue(base(), 9200223863977747302010744562542int, modulus()) == 173493889938470760650437171471202848007453int,
{
    power_8();
    multiply(17969187234331537699239735472int, 21987074179605161780494059615617755150170int, 1302int, 99606543952774213355950656885246057676686int);
    square(17969187234331537699239735473int, 99606543952774213355950656885246057676686int, 35869014706504416839368472512190790214945int, 186626012323534089441045279461828664118681int);
    multiply(35938374468663075398479470946int, 186626012323534089441045279461828664118681int, 11054int, 115177099509201136070563823977188924140166int);
    square(35938374468663075398479470947int, 115177099509201136070563823977188924140166int, 47959647113994689145556943025976440755389int, 249400734658288781316964581698614256379973int);
    square(71876748937326150796958941894int, 249400734658288781316964581698614256379973int, 224873956310552434106079871351737372080887int, 140469208276489638609315105692061916542140int);
    multiply(143753497874652301593917883788int, 140469208276489638609315105692061916542140int, 8320int, 113674378742802697359269423339082742446720int);
    square(143753497874652301593917883789int, 113674378742802697359269423339082742446720int, 46716347742980402564117413310512378336738int, 176067440968785103549407927049008892231114int);
    multiply(287506995749304603187835767578int, 176067440968785103549407927049008892231114int, 10429int, 184199328216248245857240550437986209313int);
    square(287506995749304603187835767579int, 184199328216248245857240550437986209313int, 122664752742076559112124551475102719int, 2056317751850465548300754227263635908876int);
    square(575013991498609206375671535158int, 2056317751850465548300754227263635908876int, 15287066446158765192797366356996484622int, 123479719189237933278316886097790702074742int);
    multiply(1150027982997218412751343070316int, 123479719189237933278316886097790702074742int, 7314int, 20125200542955931126432231282170537357370int);
    square(1150027982997218412751343070317int, 20125200542955931126432231282170537357370int, 1464280022454850607610237404044749176013int, 236619170749504505780729266698672144151189int);
    multiply(2300055965994436825502686140634int, 236619170749504505780729266698672144151189int, 14015int, 182714252665829991348497582729739010591371int);
    square(2300055965994436825502686140635int, 182714252665829991348497582729739010591371int, 120694798951871145570067797990428192251233int, 228771415508737861127677225692326246344590int);
    multiply(4600111931988873651005372281270int, 228771415508737861127677225692326246344590int, 13550int, 225312678908765566550544193828568748240710int);
    square(4600111931988873651005372281271int, 225312678908765566550544193828568748240710int, 183533339240316646477060575035748965915701int, 173493889938470760650437171471202848007453int);
}

/// A stretch of the chain.
proof fn power_10()
    ensures
        chain_residue(base(), 37684116946852852949036009728178272int, modulus()) == 68623897544848464062747765775558395890730int,
{
    power_9();
    multiply(9200223863977747302010744562542int, 173493889938470760650437171471202848007453int, 10276int, 155325633749284901903455979018602906065780int);
    square(9200223863977747302010744562543int, 155325633749284901903455979018602906065780int, 87222789596715362674327429042136926282724int, 150889940932064794831660038615110870181572int);
    multiply(18400447727955494604021489125086int, 150889940932064794831660038615110870181572int, 8937int, 183139025912900202994724530817866116283709int);
    square(18400447727955494604021489125087int, 183139025912900202994724530817866116283709int, 121256632685360723093317741606477367460994int, 10345298698818750078634354232884497442163int);
    square(36800895455910989208042978250174int, 10345298698818750078634354232884497442163int, 386927656401429335706808219237874068867int, 121323298363596403230161203681922455518920int);
    square(73601790911821978416085956500348int, 121323298363596403230161203681922455518920int, 53214761660521011622977230747148032592189int, 101540144482142357056366835912195435349217int);
    square(147203581823643956832171913000696int, 101540144482142357056366835912195435349217int, 37275137819936558703404039370929414418661int, 159134166080482551941996171917773520225322int);
    square(294407163647287913664343826001392int, 159134166080482551941996171917773520225322int, 91552576118531438653720129524183774184783int, 245216459464360863011364220911295140926783int);
    multiply(588814327294575827328687652002784int, 245216459464360863011364220911295140926783int, 14524int, 249956797516486730027278998760746407531244int);
    square(588814327294575827328687652002785int, 249956797516486730027278998760746407531244int, 225877830287977342736771828116190173597603int, 237118200337599301690936381418302881974095int);
    multiply(1177628654589151654657375304005570int, 237118200337599301690936381418302881974095int, 14045int, 60736295561698986065304732445552701020865int);
    square(1177628654589151654657375304005571int, 60736295561698986065304732445552701020865int, 13336451915951266473917107755378654049320int, 68984052175518736736614509766235324746185int);
    square(2355257309178303309314750608011142int, 68984052175518736736614509766235324746185int, 17204462419377438813174512094079663329877int, 89462823790658970618485735842040404800106int);
    square(4710514618356606618629501216022284int, 89462823790658970618485735842040404800106int, 28935361193280208248788258068804819748638int, 107548065274635666365612449819756387194650int);
    square(9421029236713213237259002432044568int, 107548065274635666365612449819756387194650int, 41816618241987350208095912277862312801760int, 273741103136643191388210911203503990027780int);
    square(18842058473426426474518004864089136int, 273741103136643191388210911203503990027780int, 270909185120987337986091429923547959866610int, 68623897544848464062747765775558395890730int);
}

/// A stretch of the chain.
proof fn power_11()
    ensures
        chain_residue(base(), 38588535753577321419812873961654551710int, modulus()) == 1779602260128070098826663969631900279940int,
{
    power_10();
    multiply(37684116946852852949036009728178272int, 68623897544848464062747765775558395890730int, 4064int, 220872294203172099202676682532502691932512int);
    square(37684116946852852949036009728178273int, 220872294203172099202676682532502691932512int, 176370598338572525333372744700440557681164int, 251331661725013571234812207584584093248636int);
    square(75368233893705705898072019456356546int, 251331661725013571234812207584584093248636int, 228369504264493720143503771592434447789871int, 234519652416740181395989173376997536998859int);
    square(150736467787411411796144038912713092int, 234519652416740181395989173376997536998859int, 198839282571907516949005109339904583601498int, 157022233388476705961607705840991468318875int);
    multiply(301472935574822823592288077825426184int, 157022233388476705961607705840991468318875int, 9300int, 247866017529519058846923317403828917100900int);
    square(301472935574822823592288077825426185int, 247866017529519058846923317403828917100900int, 222114894265742442920278419714248552256548int, 135541744060435178519267235927804223104644int);
    square(602945871149645647184576155650852370int, 135541744060435178519267235927804223104644int, 66418619239990385262107662398243665684885int, 84543780118376060740326574762808394577641int);
    square(1205891742299291294369152311301704740int, 84543780118376060740326574762808394577641int, 25840863857554874491183545822411125384055int, 256429032395329186719739549484629136495796int);
    multiply(2411783484598582588738304622603409480int, 256429032395329186719739549484629136495796int, 15189int, 16006551209412809798239773766945075523481int);
    square(2411783484598582588738304622603409481int, 16006551209412809798239773766945075523481int, 926273502592213080259174185665318310413int, 15963731964958263956877664737453910594850int);
    multiply(4823566969197165177476609245206818962int, 15963731964958263956877664737453910594850int, 945int, 160304567724279928812005931947734984056485int);
    square(4823566969197165177476609245206818963int, 160304567724279928812005931947734984056485int, 92904232199556046938476780822465619451467int, 263498694871487740728369201921709618353376int);
    multiply(9647133938394330354953218490413637926int, 263498694871487740728369201921709618353376int, 15607int, 225459610864705393429056830009112282577955int);
    square(9647133938394330354953218490413637927int, 225459610864705393429056830009112282577955int, 183772790526767388580763425934858959611527int, 41557203189490663579438554197183020135356int);
    multiply(19294267876788660709906436980827275854int, 41557203189490663579438554197183020135356int, 2461int, 154158699493479600026099115525488465886337int);
    square(19294267876788660709906436980827275855int, 154158699493479600026099115525488465886337int, 85917133618092695781746404092397687061207int, 1779602260128070098826663969631900279940int);
}

/// A stretch of the chain.
proof fn power_12()
    ensures
        chain_residue(base(), 19757330305831588566944191468367130476339int, modulus()) == 1int,
{
    power_11();
    multiply(38588535753577321419812873961654551710int, 1779602260128070098826663969631900279940int, 105int, 113727880365865305768101019949372386318525int);
    square(38588535753577321419812873961654551711int, 113727880365865305768101019949372386318525int, 46760332828017157339333887357458623973949int, 49660002880510261897159076917803177703722int);
    multiply(77177071507154642839625747923309103422int, 49660002880510261897159076917803177703722int, 2941int, 141169181970303267694176702739033264996321int);
    square(77177071507154642839625747923309103423int, 141169181970303267694176702739033264996321int, 72048260532310654094190799696553284996349int, 20852166459987841095271221206059416130338int);
    square(154354143014309285679251495846618206846int, 20852166459987841095271221206059416130338int, 1571976575436633778117870794030611180460int, 147620844463418569624496921072207144910624int);
    square(308708286028618571358502991693236413692int, 147620844463418569624496921072207144910624int, 78784190051298505409520327729949746327307int, 119777032930529482706392831189389218495047int);
    multiply(617416572057237142717005983386472827384int, 119777032930529482706392831189389218495047int, 7094int, 207890879824994546910826334603025434758830int);
    square(617416572057237142717005983386472827385int, 207890879824994546910826334603025434758830int, 156248040041746953031273477057906911807144int, 260070460200178836074044122309473026840332int);
    multiply(1234833144114474285434011966772945654770int, 260070460200178836074044122309473026840332int, 15404int, 207595485312986244222344616224181746620700int);
    square(1234833144114474285434011966772945654771int, 207595485312986244222344616224181746620700int, 155804326275853435103536572961268077530838int, 266923732856059701510153452999870965170014int);
    square(2469666288228948570868023933545891309542int, 266923732856059701510153452999870965170014int, 257583525633027705067681123853479943815982int, 218631566832821983138097142210029686245642int);
    square(4939332576457897141736047867091782619084int, 218631566832821983138097142210029686245642int, 172810226005318179131999812986065537171239int, 20018801551267327087131077821866095424631int);
    multiply(9878665152915794283472095734183565238168int, 20018801551267327087131077821866095424631int, 1185int, 213934842217832669951442573243412834689109int);
    square(9878665152915794283472095734183565238169int, 213934842217832669951442573243412834689109int, 165465229527854955665568865242952114329857int, 203619644254204532219408844372538052334702int);
    multiply(19757330305831588566944191468367130476338int, 203619644254204532219408844372538052334702int, 12061int, 1int);
}

/// The number is prime.
pub proof fn lemma_prime()
    ensures
        is_prime(276602624281642239937218680557139826668747nat),
{
    crate::certificate::second::lemma_prime();
    power_12();
    lemma_chain_end(16384nat, 19757330305831588566944191468367130476339nat, 276602624281642239937218680557139826668747nat, 1);
    lemma_prime_by_element(
        276602624281642239937218680557139826668747nat,
        19757330305831588566944191468367130476339nat,
        19757330305831588566944191468367130476340nat,
        16384nat,
        94074944912245044309966580483695483989395int,
        -5572int,
    );
}

} // verus!
