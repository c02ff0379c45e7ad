//! The prime 19757330305831588566944191468367130476339, by an element of
//! order 172054593956031949258510691.

use crate::primality::{
    chain_residue, is_prime, lemma_chain_end, lemma_chain_multiply, lemma_chain_square,
    lemma_chain_start, lemma_prime_by_element,
};
use vstd::prelude::*;

verus! {

/// The number that is shown to be prime.
pub open spec fn modulus() -> int {
    19757330305831588566944191468367130476339int
}

/// The element whose powers are followed.
pub open spec fn base() -> int {
    9148758478138211201771971577098600188172int
}

/// One squaring: from the power with exponent `e` to that with `2 * e`.
proof fn square(e: int, h: int, k: int, r: int)
    requires
        e >= 0,
        chain_residue(base(), e, modulus()) == h,
        h * h == k * modulus() + r,
        0 <= r < modulus(),
    ensures
        chain_residue(base(), 2 * e, modulus()) == r,
{
    lemma_chain_square(base(), e, modulus(), h, k, r);
}

/// One multiplication by the base: from the exponent `e` to `e + 1`.
proof fn multiply(e: int, h: int, k: int, r: int)
    requires
        e >= 0,
        chain_residue(base(), e, modulus()) == h,
        h * base() == k * modulus() + r,
        0 <= r < modulus(),
    ensures
        chain_residue(base(), e + 1, modulus()) == r,
{
    lemma_chain_multiply(base(), e, modulus(), h, k, r);
}

/// A stretch of the chain.
proof fn power_0()
    ensures
        chain_residue(base(), 1138int, modulus()) == 18150536280503717997844774112577289339282int,
{
    lemma_chain_start(base(), modulus());
    square(0int, 1int, 0int, 1int);
    multiply(0int, 1int, 0int, 9148758478138211201771971577098600188172int);
    square(1int, 9148758478138211201771971577098600188172int, 4236391273298746611402238549188438187126int, 17452856350318614524776937116527811289870int);
    square(2int, 17452856350318614524776937116527811289870int, 15417173781568564210561653121962861287832int, 15256330496231587582282042909088020009852int);
    square(4int, 15256330496231587582282042909088020009852int, 11780722223464859236345281243913721838396int, 7186465123911483365735852593675917349660int);
    square(8int, 7186465123911483365735852593675917349660int, 2613980744248246522637280337014931526636int, 6034020581121473381165393954055555849996int);
    multiply(16int, 6034020581121473381165393954055555849996int, 2794091919013043026866550645884742772397int, 2494169446684761869929460125062934632729int);
    square(17int, 2494169446684761869929460125062934632729int, 314864464605302021602958510219121219305int, 10563899524727950668273967997306985463046int);
    multiply(34int, 10563899524727950668273967997306985463046int, 4891681408521513921016986813238661224174int, 2132088531979932106953125494754670472926int);
    square(35int, 2132088531979932106953125494754670472926int, 230081769036305464861955683711714186733int, 3307049737780276825094826620842214790989int);
    multiply(70int, 3307049737780276825094826620842214790989int, 1531350585216052659636017941648198199337int, 3041151066232241312849026766082165994865int);
    square(71int, 3041151066232241312849026766082165994865int, 468109793402384656648378078025365294686int, 4026350534696373438513755681604920933671int);
    square(142int, 4026350534696373438513755681604920933671int, 820530829687286955125808394458178773849int, 10223935246787310469726904505792055077430int);
    square(284int, 10223935246787310469726904505792055077430int, 5290636453025593644464660588006038399840int, 11255584445674391575415616921058754019140int);
    multiply(568int, 11255584445674391575415616921058754019140int, 5211970546110174630122572865935670716015int, 9322935913870068838441262613025143742995int);
    square(569int, 9322935913870068838441262613025143742995int, 4399234750277663199167485606072938565837int, 18150536280503717997844774112577289339282int);
}

/// A stretch of the chain.
proof fn power_1()
    ensures
        chain_residue(base(), 1165886int, modulus()) == 14028592097035499755454276897271093717649int,
{
    power_0();
    square(1138int, 18150536280503717997844774112577289339282int, 16674417148993222104672095584171729779268int, 9367255098825315266625008352395941535672int);
    multiply(2276int, 9367255098825315266625008352395941535672int, 4337567534464237874726510799339397519996int, 4570051278230293182343865036963093096940int);
    square(2277int, 4570051278230293182343865036963093096940int, 1057094676373851752617824375212565915078int, 12410437727644433342902949768458675024158int);
    square(4554int, 12410437727644433342902949768458675024158int, 7795535237181309466171003130490948373257int, 15792211595920519137762945996642304742841int);
    square(9108int, 15792211595920519137762945996642304742841int, 12622856591951353055207389033554592777106int, 17102211454128093695963179719948506856347int);
    square(18216int, 17102211454128093695963179719948506856347int, 14803904783399803929156615645462798113122int, 17641059880338195641230651052998227764051int);
    multiply(36432int, 17641059880338195641230651052998227764051int, 8168805888513733555463277552997538171937int, 6578389329972392806944640871377324706129int);
    square(36433int, 6578389329972392806944640871377324706129int, 2190336726006017349541038452076805464057int, 13877256361047253125336251064651856717318int);
    multiply(72866int, 13877256361047253125336251064651856717318int, 6425952536155908013868517304269555522170int, 10362146982508540274383117612657036227066int);
    square(72867int, 10362146982508540274383117612657036227066int, 5434645694788947713446075353947901776194int, 15709429295433665948326460385436920494590int);
    multiply(145734int, 15709429295433665948326460385436920494590int, 7274351960947401350376593782833488939261int, 15549594218231149936475137092598539344001int);
    square(145735int, 15549594218231149936475137092598539344001int, 12237983402053096357132700828785517709025int, 1766536977105472462776118422079165428526int);
    multiply(291470int, 1766536977105472462776118422079165428526int, 818006273928014568743212123543969578149int, 4710611264995645990396135466613360677961int);
    square(291471int, 4710611264995645990396135466613360677961int, 1123120287327195451338074038893543569575int, 11612395857406350181709001611057413331596int);
    multiply(582942int, 11612395857406350181709001611057413331596int, 5377194358115570065750608837417941094991int, 14306935111055188341908699466257956164563int);
    square(582943int, 14306935111055188341908699466257956164563int, 10360124019970843610746339959134261015880int, 14028592097035499755454276897271093717649int);
}

/// A stretch of the chain.
proof fn power_2()
    ensures
        chain_residue(base(), 1193868573int, modulus()) == 9950984845626339808167632144562359781912int,
{
    power_1();
    multiply(1165886int, 14028592097035499755454276897271093717649int, 6496029519039526517093072237723055664703int, 12054212035985357958569991380413778485311int);
    square(1165887int, 12054212035985357958569991380413778485311int, 7354436331188238621826829290923741554165int, 7014420713638344142162941540823364786int);
    square(2331774int, 7014420713638344142162941540823364786int, 2490321171246305916380229024093752int, 17892466123272420553022337762171271091868int);
    multiply(4663548int, 17892466123272420553022337762171271091868int, 8285221161270624143229335128940668840918int, 9871318903626800018801925127128344946094int);
    square(4663549int, 9871318903626800018801925127128344946094int, 4931989058680588953381910537073999790406int, 16758244956911997799956314712130823653202int);
    square(9327098int, 16758244956911997799956314712130823653202int, 14214409016230994624507171178327948943627int, 3087644085772852067253660218464796511251int);
    square(18654196int, 3087644085772852067253660218464796511251int, 482532095826435760931921599856373044293int, 6488084572568393398662140446932334101674int);
    square(37308392int, 6488084572568393398662140446932334101674int, 2130613841505455256118270811840511880029int, 13180020399998999618081529967629378468445int);
    multiply(74616784int, 13180020399998999618081529967629378468445int, 6103092953855951798993870150422638838848int, 2531696698240161786759645569454066215068int);
    square(74616785int, 2531696698240161786759645569454066215068int, 324410640135337891734276690148086676296int, 1141493792253580833338182604169450084280int);
    multiply(149233570int, 1141493792253580833338182604169450084280int, 528576019531325430715903392017243429648int, 2445393720907838733323005951380984037488int);
    square(149233571int, 2445393720907838733323005951380984037488int, 302669963891348112670852155463871949111int, 8428385172237934464778443866235991765515int);
    multiply(298467142int, 8428385172237934464778443866235991765515int, 3902817795113065593616894688911257719563int, 9932424461401412762326196227066431568723int);
    square(298467143int, 9932424461401412762326196227066431568723int, 4993238162968133089162321243434113761119int, 8918366516391913661825875591065344187388int);
    square(596934286int, 8918366516391913661825875591065344187388int, 4025708943946954177425946863640603490307int, 416735850729778067860415667563178916471int);
    multiply(1193868572int, 416735850729778067860415667563178916471int, 192972207706770110936824514822635946900int, 9950984845626339808167632144562359781912int);
}

/// A stretch of the chain.
proof fn power_3()
    ensures
        chain_residue(base(), 19560342702336int, modulus()) == 16286749606168278180443301842492409534899int,
{
    power_2();
    square(1193868573int, 9950984845626339808167632144562359781912int, 5011916988028368999698573958289977870373int, 18757685180743459031793611964303916771297int);
    square(2387737146int, 18757685180743459031793611964303916771297int, 17808618264383130683507726946746393169489int, 1174784736088035504326268094920471841438int);
    square(4775474292int, 1174784736088035504326268094920471841438int, 69853525490641729505980002821613589611int, 11694396827810158210094169077780522193715int);
    multiply(9550948584int, 11694396827810158210094169077780522193715int, 5415165433234761019818911814139852260576int, 8447080979295009311640669415368405227716int);
    square(9550948585int, 8447080979295009311640669415368405227716int, 3611478674814019573345615334646401966279int, 19215786837807870876373472504002329204075int);
    square(19101897170int, 19215786837807870876373472504002329204075int, 18689086940409309649784099619741173708430int, 5525864191423685667108386084773996767855int);
    square(38203794340int, 5525864191423685667108386084773996767855int, 1545511189487263773218875558602909754142int, 9753637265071697219287028444404923054887int);
    multiply(76407588680int, 9753637265071697219287028444404923054887int, 4516484273949259586256394781033341355836int, 3605680900520242195309378717180506632160int);
    square(76407588681int, 3605680900520242195309378717180506632160int, 658030946242726880537513252082518870244int, 16419827784795524034922106934109693108884int);
    square(152815177362int, 16419827784795524034922106934109693108884int, 13646112116815933099821591760631044564084int, 13306821770082688874374288093341548516980int);
    square(305630354724int, 13306821770082688874374288093341548516980int, 8962319446999477733431638706293949066303int, 8358531348907013068593886862012664615683int);
    square(611260709448int, 8358531348907013068593886862012664615683int, 3536158237433519623361016102559509628825int, 3219450550697549974852193757618754684814int);
    square(1222521418896int, 3219450550697549974852193757618754684814int, 524608420669439197094801224653359505104int, 16005496718170176413436694437827660480340int);
    square(2445042837792int, 16005496718170176413436694437827660480340int, 12966120484392732332014891111197785093768int, 17116265634804989486888178135839906160248int);
    square(4890085675584int, 17116265634804989486888178135839906160248int, 14828245757208099178834165450987258904324int, 13258456566382802467363685986149708631668int);
    square(9780171351168int, 13258456566382802467363685986149708631668int, 8897288641814826844775425267381076512175int, 16286749606168278180443301842492409534899int);
}

/// A stretch of the chain.
proof fn power_4()
    ensures
        chain_residue(base(), 20029790927194052int, modulus()) == 6926264212043825658357106330929936190380int,
{
    power_3();
    multiply(19560342702336int, 16286749606168278180443301842492409534899int, 7541683832494626570115966373757922684164int, 12198975744522653049203274081465629019032int);
    square(19560342702337int, 12198975744522653049203274081465629019032int, 7532141585522193072869455860321088392485int, 524959004495645482544453548760780304609int);
    multiply(39120685404674int, 524959004495645482544453548760780304609int, 243085632963121365614219688983743479471int, 16711167018326391839730685967425381148079int);
    square(39120685404675int, 16711167018326391839730685967425381148079int, 14134657810117811338865891374325717310546int, 17323702103806015868826163240397157219147int);
    multiply(78241370809350int, 17323702103806015868826163240397157219147int, 8021851335256358846307569200993402187948int, 1631195712726749805845753719208396366912int);
    square(78241370809351int, 1631195712726749805845753719208396366912int, 134674038042111676292744456722710307028int, 888283879342268461545694235826349005252int);
    multiply(156482741618702int, 888283879342268461545694235826349005252int, 411325545826775851566405502774995352013int, 13560738092743535025475423230548543758937int);
    square(156482741618703int, 13560738092743535025475423230548543758937int, 9307614681408013338134732455339642628743int, 14996903543533163635841861444285844558092int);
    multiply(312965483237406int, 14996903543533163635841861444285844558092int, 6944412342958251668538341247076502441305int, 2168288317965443905005900477412346505429int);
    square(312965483237407int, 2168288317965443905005900477412346505429int, 237961007739882917162343846677209072604int, 1204438558877154909459327933309371357285int);
    square(625930966474814int, 1204438558877154909459327933309371357285int, 73424507241340002115109568944033799744int, 6820381475385571486452246194232266314009int);
    square(1251861932949628int, 6820381475385571486452246194232266314009int, 2354447830234052108946289938035055879621int, 8656712996510835566909771721587016864562int);
    square(2503723865899256int, 8656712996510835566909771721587016864562int, 3792955765984266220330170555442784460287int, 10737263428302781904986202402528112802551int);
    multiply(5007447731798512int, 10737263428302781904986202402528112802551int, 4971958675646274629430965073871727511391int, 17417867900715668653880847548782003149223int);
    square(5007447731798513int, 17417867900715668653880847548782003149223int, 15355420874713764203954725010286503912577int, 2158367212976865890182086479308382488126int);
    square(10014895463597026int, 2158367212976865890182086479308382488126int, 235788386079596123584302662496265832264int, 6926264212043825658357106330929936190380int);
}

/// A stretch of the chain.
proof fn power_5()
    ensures
        chain_residue(base(), 10255252954723355129int, modulus()) == 3690620876896704597439779200915200761344int,
{
    power_4();
    square(20029790927194052int, 6926264212043825658357106330929936190380int, 2428118333420750171379693859689417363774int, 14839977110673736716115221386741341801014int);
    multiply(40059581854388104int, 14839977110673736716115221386741341801014int, 6871746552042010732411930182982301573662int, 8267911451398568613595142388670423822990int);
    square(40059581854388105int, 8267911451398568613595142388670423822990int, 3459898615350419089860549540162443531648int, 13581154619280589016209018196407190863428int);
    multiply(80119163708776210int, 13581154619280589016209018196407190863428int, 6288840726086119390668932959489678023048int, 15233055147316592394294422004567892312344int);
    square(80119163708776211int, 15233055147316592394294422004567892312344int, 11744803854025645688363958554695225511818int, 4404846058849829340129617224647840900034int);
    multiply(160238327417552422int, 4404846058849829340129617224647840900034int, 2039692210536228996319910237395936443316int, 17584510032140963308830297529297688497724int);
    square(160238327417552423int, 17584510032140963308830297529297688497724int, 15650646533919517004181007156407942172428int, 2729440397867714415818959398913840999084int);
    multiply(320476654835104846int, 2729440397867714415818959398913840999084int, 1263884876854780730368251246153816674655int, 13078642753699995833999869423999741146403int);
    square(320476654835104847int, 13078642753699995833999869423999741146403int, 8657591568857959411763777557448718352051int, 16978714348762154584374223727649952217120int);
    multiply(640953309670209694int, 16978714348762154584374223727649952217120int, 7862102543291292334694902087212027889036int, 7907769673089166862526301954901284385436int);
    square(640953309670209695int, 7907769673089166862526301954901284385436int, 3165044074004852473201345889027914294627int, 19322965531134552606856176228670510579543int);
    multiply(1281906619340419390int, 19322965531134552606856176228670510579543int, 8947623084155292222334462136922208930359int, 19413186630557734259314912838477225489695int);
    square(1281906619340419391int, 19413186630557734259314912838477225489695int, 19075037432644823740488737407416326595733int, 17440579358160463369300876413581976331538int);
    square(2563813238680838782int, 17440579358160463369300876413581976331538int, 15395491376611376939038112018637165767184int, 16036741233606181452490177031261798786068int);
    square(5127626477361677564int, 16036741233606181452490177031261798786068int, 13016792522709210971854324190296085636844int, 1383900366111345979187764309004542266508int);
    multiply(10255252954723355128int, 1383900366111345979187764309004542266508int, 640823937818295693655172743860817987888int, 3690620876896704597439779200915200761344int);
}

/// A stretch of the chain.
proof fn power_6()
    ensures
        chain_residue(base(), 10501379025636715652984int, modulus()) == 15266916451274696462102698514338204304031int,
{
    power_5();
    square(10255252954723355129int, 3690620876896704597439779200915200761344int, 689398934276333369162105566786572122963int, 14467797340334948331233642428252574613879int);
    multiply(20510505909446710258int, 14467797340334948331233642428252574613879int, 6699406323044902490883825922656334602812int, 8248916086175474172169080312801713973920int);
    square(20510505909446710259int, 8248916086175474172169080312801713973920int, 3444018779029087867345609384108587661653int, 339329510354698824204640331394386038033int);
    multiply(41021011818893420518int, 339329510354698824204640331394386038033int, 157128705482224429485433634429411080743int, 7551617746111749160942509267040968705799int);
    square(41021011818893420519int, 7551617746111749160942509267040968705799int, 2886368233999599754445450120898905115241int, 7480450669206645991797575910852997445702int);
    square(82042023637786841038int, 7480450669206645991797575910852997445702int, 2832221830998989038894386682882705516078int, 13218476571103352073130883727357475194362int);
    multiply(164084047275573682076int, 13218476571103352073130883727357475194362int, 6120900330459046445118751405574280152546int, 11573693506535883733031517569668909877170int);
    square(164084047275573682077int, 11573693506535883733031517569668909877170int, 6779781443634314512883592514474417607089int, 8651861769298113531436618263391374041729int);
    multiply(328168094551147364154int, 8651861769298113531436618263391374041729int, 4006300066268714798508812477825572010135int, 16825528773474459508715620813107294533623int);
    square(328168094551147364155int, 16825528773474459508715620813107294533623int, 14328778945577348893284526475178483416330int, 9922698843435261994395158822532126290259int);
    multiply(656336189102294728310int, 9922698843435261994395158822532126290259int, 4594769321799300571626102743647683139776int, 10377183235081217899414225510103692856484int);
    square(656336189102294728311int, 10377183235081217899414225510103692856484int, 5450429295230541856678324391338201792282int, 10471517616910382528306702541617227026658int);
    multiply(1312672378204589456622int, 10471517616910382528306702541617227026658int, 4848903373772401318794084375675904100418int, 12914652405598066240343614596379231279474int);
    square(1312672378204589456623int, 12914652405598066240343614596379231279474int, 8441841290075034788106197075579208363492int, 8802712626287945887266931270136476300888int);
    square(2625344756409178913246int, 8802712626287945887266931270136476300888int, 3921974699088665985198002163900556784358int, 15045667541927555440194096211401265283182int);
    square(5250689512818357826492int, 15045667541927555440194096211401265283182int, 11457626525350755733952625665194536076487int, 15266916451274696462102698514338204304031int);
}

/// A stretch of the chain.
proof fn power_7()
    ensures
        chain_residue(base(), 21506824244503993657313836int, modulus()) == 15259351624186530280202145201877611830785int,
{
    power_6();
    multiply(10501379025636715652984int, 15266916451274696462102698514338204304031int, 7069443551156353641920988273674133784284int, 8605733815382187393606992513639306065056int);
    square(10501379025636715652985int, 8605733815382187393606992513639306065056int, 3748414049612424187842529392904439562857int, 17537900330181141060833608777859162542613int);
    square(21002758051273431305970int, 17537900330181141060833608777859162542613int, 15567788928475971103913395051233166643775int, 17278213172286289595358812246753361728044int);
    multiply(42005516102546862611940int, 17278213172286289595358812246753361728044int, 8000787393850281932736003428309677185946int, 19398325626256179070939836239045433163874int);
    square(42005516102546862611941int, 19398325626256179070939836239045433163874int, 19045844315879036247579492985711681105911int, 18999536686118205708076459474030000148047int);
    square(84011032205093725223882int, 18999536686118205708076459474030000148047int, 18270808287322287326087914534497112628218int, 14085306779603317604553452397035365180307int);
    square(168022064410187450447764int, 14085306779603317604553452397035365180307int, 10041633358580865940406532577607399350910int, 1341324029802437097457343225558907495759int);
    square(336044128820374900895528int, 1341324029802437097457343225558907495759int, 91062412030152203404303416849835261953int, 19272247135325429962434438807112869556014int);
    multiply(672088257640749801791056int, 19272247135325429962434438807112869556014int, 8924137605779738483368637347121359120329int, 3581058332261539785328547084402705870877int);
    square(672088257640749801791057int, 3581058332261539785328547084402705870877int, 649074474159834509435881065616635276471int, 6516500323222394929084190533573807829460int);
    square(1344176515281499603582114int, 6516500323222394929084190533573807829460int, 2149317534567088855226392935787610006184int, 15806954400503311718026489692901788211224int);
    multiply(2688353030562999207164228int, 15806954400503311718026489692901788211224int, 7319511586161233465330410401656224152519int, 10826002675492735322954795059520625694587int);
    square(2688353030562999207164229int, 10826002675492735322954795059520625694587int, 5932093664252924590904600017324188214760int, 14585964293421719030231865978867370536929int);
    multiply(5376706061125998414328458int, 14585964293421719030231865978867370536929int, 6754124288334436625863031195307854729336int, 4696048171776980570134823627708477822884int);
    square(5376706061125998414328459int, 4696048171776980570134823627708477822884int, 1116186655296276555875092427053869893770int, 19735764202068961092870567181341045569426int);
    square(10753412122251996828656918int, 19735764202068961092870567181341045569426int, 19714221638775835368057155291873208206769int, 15259351624186530280202145201877611830785int);
}

/// A stretch of the chain.
proof fn power_8()
    ensures
        chain_residue(base(), 172054593956031949258510691int, modulus()) == 1int,
{
    power_7();
    square(21506824244503993657313836int, 15259351624186530280202145201877611830785int, 11785388429824274548871147654967716654131int, 16355648338396861518328361897502131609816int);
    square(43013648489007987314627672int, 16355648338396861518328361897502131609816int, 13539644700394889884195285439687114255939int, 3876838429183751870653875125205037826535int);
    multiply(86027296978015974629255344int, 3876838429183751870653875125205037826535int, 1795194892140768484111516416351149141699int, 19048718096193709503748728659744016984059int);
    square(86027296978015974629255345int, 19048718096193709503748728659744016984059int, 18365520821462277189670397278128911320426int, 19592464294015459285320561246763419715067int);
    multiply(172054593956031949258510690int, 19592464294015459285320561246763419715067int, 9072416214279087957832116199420676535857int, 1int);
}

/// The number is prime.
pub proof fn lemma_prime()
    ensures
        is_prime(19757330305831588566944191468367130476339nat),
{
    crate::certificate::third::lemma_prime();
    power_8();
    lemma_chain_end(9148758478138211201771971577098600188172nat, 172054593956031949258510691nat, 19757330305831588566944191468367130476339nat, 1);
    lemma_prime_by_element(
        19757330305831588566944191468367130476339nat,
        172054593956031949258510691nat,
        172054593956031949258510692nat,
        9148758478138211201771971577098600188172nat,
        -3385675872469944473147229741170731090145int,
        1567758921019043986448917253982060556964int,
    );
}

} // verus!
