//! The order of the Ristretto group is prime, by an element of order
//! 276602624281642239937218680557139826668747.

use crate::primality::{
    chain_residue, is_prime, lemma_chain_end, lemma_chain_multiply, lemma_chain_square,
    lemma_chain_start, lemma_prime_by_element,
};
use vstd::prelude::*;

verus! {

/// The number that is shown to be prime.
pub open spec fn modulus() -> int {
    7237005577332262213973186563042994240857116359379907606001950938285454250989int
}

/// The element whose powers are followed.
pub open spec fn base() -> int {
    2975531125133123119648879457563281269120703404158613135195788908093573672641int
}

/// One squaring: from the power with exponent `e` to that with `2 * e`.
proof fn square(e: int, h: int, k: int, r: int)
    requires
        e >= 0,
        chain_residue(base(), e, modulus()) == h,
        h * h == k * modulus() + r,
        0 <= r < modulus(),
    ensures
        chain_residue(base(), 2 * e, modulus()) == r,
{
    lemma_chain_square(base(), e, modulus(), h, k, r);
}

/// One multiplication by the base: from the exponent `e` to `e + 1`.
proof fn multiply(e: int, h: int, k: int, r: int)
    requires
        e >= 0,
        chain_residue(base(), e, modulus()) == h,
        h * base() == k * modulus() + r,
        0 <= r < modulus(),
    ensures
        chain_residue(base(), e + 1, modulus()) == r,
{
    lemma_chain_multiply(base(), e, modulus(), h, k, r);
}

/// A stretch of the chain.
proof fn power_0()
    ensures
        chain_residue(base(), 1624int, modulus()) == 411662676966875638872925827159575641754175486986814082520557209955361610069int,
{
    lemma_chain_start(base(), modulus());
    square(0int, 1int, 0int, 1int);
    multiply(0int, 1int, 0int, 2975531125133123119648879457563281269120703404158613135195788908093573672641int);
    square(1int, 2975531125133123119648879457563281269120703404158613135195788908093573672641int, 1223404539630009807858973194844854119292758895955338460353160652115163499815int, 7176443222487227127746324206299826252268452171869025340294892388562366847846int);
    multiply(2int, 7176443222487227127746324206299826252268452171869025340294892388562366847846int, 2950630609315200156635995791006631173264635579114444112916093284879610847891int, 3665235763280526279908536420599828886736543928067072603103294819968044667087int);
    square(3int, 3665235763280526279908536420599828886736543928067072603103294819968044667087int, 1856286147202703521034691658378133180412219648999977872421384837026664486073int, 2842607373568233679126802808133879853739251170804687763745690814605824089372int);
    square(6int, 2842607373568233679126802808133879853739251170804687763745690814605824089372int, 1116541447138573496756244542216926257445550410337352191787132663081528161829int, 5146656198582732691297687165262510079968062831454669297356825201005868055503int);
    square(12int, 5146656198582732691297687165262510079968062831454669297356825201005868055503int, 3660086999155556437614529174692523347860243788378017673436811818684835372196int, 3541115566853986015298122313137716446892731340957926700524820210404072481165int);
    multiply(24int, 3541115566853986015298122313137716446892731340957926700524820210404072481165int, 1455947418345301871733398916909564663023258525876226553574842332744004745687int, 5936157607676022067457478676780565476569134042210044479126850339426335072322int);
    square(25int, 5936157607676022067457478676780565476569134042210044479126850339426335072322int, 4869136380596723629135004668979497428744714294526662175829914325404308405951int, 7175938532651233903748682442707025085440801865718631403814725555505715236145int);
    square(50int, 7175938532651233903748682442707025085440801865718631403814725555505715236145int, 7115386781748305648093708235180346537971055537505191784540631883845703375691int, 4759179414969296623362070339986437047709859227876682567819116907449839152626int);
    multiply(100int, 4759179414969296623362070339986437047709859227876682567819116907449839152626int, 1956760476140756781517529249769589651691211580712135983716456791307300528921int, 2964120003904931808861274971784108810578952962345512456809578895262572152397int);
    square(101int, 2964120003904931808861274971784108810578952962345512456809578895262572152397int, 1214039052984689120161175967410767924289395506614671308827570444955232533229int, 1081431994511180660392012526516736980152427774466948784371782633184144232128int);
    multiply(202int, 1081431994511180660392012526516736980152427774466948784371782633184144232128int, 444636186195808290539046098917715609697945547648828256137957040746155910817int, 6874789637663776313523746259733825275063889672641281416831346523591968762035int);
    square(203int, 6874789637663776313523746259733825275063889672641281416831346523591968762035int, 6530702796494380958036772092722183590660751575243958592314969107719368813924int, 6974337175062843460372899792875754088382950456993122439444980336729723370389int);
    square(406int, 6974337175062843460372899792875754088382950456993122439444980336729723370389int, 6721202369087294405032056121383726858328735707533238205183036337879283474008int, 6207530265682898525770647841602741158668051929211741291680926422922192217409int);
    square(812int, 6207530265682898525770647841602741158668051929211741291680926422922192217409int, 5324499420045156998937815870691559654624652383636624290799198693831305967708int, 411662676966875638872925827159575641754175486986814082520557209955361610069int);
}

/// A stretch of the chain.
proof fn power_1()
    ensures
        chain_residue(base(), 1664740int, modulus()) == 4293328023626892693909225933337288430371768452284215547350728441805938375365int,
{
    power_0();
    multiply(1624int, 411662676966875638872925827159575641754175486986814082520557209955361610069int, 169257173465119068552726357923900362362245009598167917209104531875413777980int, 5089192805081444504726152334872055858411421915105645889720167477643654000009int);
    square(1625int, 5089192805081444504726152334872055858411421915105645889720167477643654000009int, 3578812138602782999535417358287869221358346342637854340830147215186593678830int, 1054111108238681935876475697511919700352315527844632450886939308886096137211int);
    multiply(3250int, 1054111108238681935876475697511919700352315527844632450886939308886096137211int, 433403066834304461920113237363733046516246079516372744547254292667636100435int, 3729166653595140297381057994581282117922119383234765286236682086947030664036int);
    square(3251int, 3729166653595140297381057994581282117922119383234765286236682086947030664036int, 1921607463429967667809556145294639673072208594375451036803121489188086983621int, 7137485879826442710213371833326605936948003446197224505871178667154237758127int);
    square(6502int, 7137485879826442710213371833326605936948003446197224505871178667154237758127int, 7039334727651398084320707555840286361784151835339341365545283433050684519464int, 3038547337527640216361683390837710115631204042997768863858105440709442798233int);
    multiply(13004int, 3038547337527640216361683390837710115631204042997768863858105440709442798233int, 1249313971281574858224369898244785595293098543411208992184678776636401173639int, 2373096510333686718966938841103364010878955140374695579704181567728478764382int);
    square(13005int, 2373096510333686718966938841103364010878955140374695579704181567728478764382int, 778165359578714434273548313369262879810661403732346162124944537590559234300int, 713264088763536489990810267486129355185259715745519681635588958781614119224int);
    multiply(26010int, 713264088763536489990810267486129355185259715745519681635588958781614119224int, 293262105974217575909046638449185698712885393494889081049963404929596057431int, 6405772445709333074017480073639598936699222844194712905383296063556588401325int);
    square(26011int, 6405772445709333074017480073639598936699222844194712905383296063556588401325int, 5670013680068910529546471936793725106806887565411382451778453745208215496732int, 2554440955846669425762404361341720432364493856808559514707278354583624487677int);
    multiply(52022int, 2554440955846669425762404361341720432364493856808559514707278354583624487677int, 1050271205433894239619339188411900088901744847037056183486282938217147805454int, 164317360067121570284146884234674282780934341476944297429580691382277450951int);
    square(52023int, 164317360067121570284146884234674282780934341476944297429580691382277450951int, 3730851735695499161156490637513609263680659906795929367355643579423586477int, 2912146453556428322079037447932495181322413701611605686133751551442106528648int);
    square(104046int, 2912146453556428322079037447932495181322413701611605686133751551442106528648int, 1171837837672005611047987902738947141008388906493256583163207695295041008655int, 960028914461910659853818081051779040975436451011166430819809887532753398109int);
    square(208092int, 960028914461910659853818081051779040975436451011166430819809887532753398109int, 127353158257846666874704891410906382507371860790079466085049410317112444913int, 6132924178163738900129506349820001147402253642691574638855650236755706506924int);
    multiply(416184int, 6132924178163738900129506349820001147402253642691574638855650236755706506924int, 2521582522661894288489101702973715840448054958656599086818206908471941062199int, 2972356994885678752509606889581643171603070875080246994629418464611369601473int);
    square(416185int, 2972356994885678752509606889581643171603070875080246994629418464611369601473int, 1220795812665738752155885365755814834380326718577345897402649771801243444300int, 1549361267559003431076770652863421714450574831755220452476910377751802357029int);
    square(832370int, 1549361267559003431076770652863421714450574831755220452476910377751802357029int, 331700772061161309903980633540666086175995672423896207000459768887891395684int, 4293328023626892693909225933337288430371768452284215547350728441805938375365int);
}

/// A stretch of the chain.
proof fn power_2()
    ensures
        chain_residue(base(), 852347642int, modulus()) == 7232046672972164392716347785116782272069947763230477244222753543362230759150int,
{
    power_1();
    multiply(1664740int, 4293328023626892693909225933337288430371768452284215547350728441805938375365int, 1765223341090369703120561515250582912516635859376231941540930141405120994307int, 4552874947872426685181280873178328187802856648027268743880368401400270769342int);
    square(1664741int, 4552874947872426685181280873178328187802856648027268743880368401400270769342int, 2864260648891947982711390605243575784521789788377565065203964152685569232708int, 31012265291365030753547563406996299953448142391039883343334817870986964752int);
    square(3329482int, 31012265291365030753547563406996299953448142391039883343334817870986964752int, 132894826212989146993827852965090392294583827621708960103714901598148968int, 4370707797001957797090782746525475202345802010548697377101604099172407092152int);
    multiply(6658964int, 4370707797001957797090782746525475202345802010548697377101604099172407092152int, 1797038422849381950009214623223656474327355187426374546829584763698460088596int, 2369169303297118495569055780024983823164495171844705344082185186136207591988int);
    square(6658965int, 2369169303297118495569055780024983823164495171844705344082185186136207591988int, 775591938918254885356852958274652143178079090497669291337663473478550438181int, 2069580505132444621992916992881226171509368798278302698916642184754379181135int);
    multiply(13317930int, 2069580505132444621992916992881226171509368798278302698916642184754379181135int, 850918400322740583357818075603831626839659727632649862254428689308642027591int, 3059766519068902245709035047862486866731795828404872399757436477996955790036int);
    square(13317931int, 3059766519068902245709035047862486866731795828404872399757436477996955790036int, 1293652609656569157818254235488014428462287207490244184663870945665019154895int, 4293679396595396905855161769077169470287188935829391346980232761414918940141int);
    multiply(26635862int, 4293679396595396905855161769077169470287188935829391346980232761414918940141int, 1765367809847943896944512869579033661233184275462227010247546690925786619529int, 6822442268978850854592382282468272686290476081204332545390266241015593418200int);
    square(26635863int, 6822442268978850854592382282468272686290476081204332545390266241015593418200int, 6431626729615867501659773433832380505736411321127867505449063357685952142070int, 6236569085039900258964358743191727544365007442454931030758500429268125232770int);
    multiply(53271726int, 6236569085039900258964358743191727544365007442454931030758500429268125232770int, 2564196645737535952347229564610585653519325875885816416206595013348755799503int, 2760896271589094641256962135464800424419427770653358600175313710813182187103int);
    square(53271727int, 2760896271589094641256962135464800424419427770653358600175313710813182187103int, 1053273780298014099459103631855690576668274396077016369518736536781949068068int, 1806501423268505600163115444382978058158437024092128647469866256720982213357int);
    multiply(106543454int, 1806501423268505600163115444382978058158437024092128647469866256720982213357int, 742752116893378523348557365947068244961322961244379838852611912608335193772int, 2338951956602103976058197758407137832003815435933005695873093672217098025329int);
    square(106543455int, 2338951956602103976058197758407137832003815435933005695873093672217098025329int, 755933679590923200887033011987710395872760216082926049791289029456494440696int, 3250659748771951401884218851066237121211939833634847786563837599231965709897int);
    square(213086910int, 3250659748771951401884218851066237121211939833634847786563837599231965709897int, 1460105106922040506280355827651633562006011030731223608020648819616313143564int, 2507888490983108972794632012761413479426342458137654810058023380281517765813int);
    multiply(426173820int, 2507888490983108972794632012761413479426342458137654810058023380281517765813int, 1031130926119054819274717623389352683541240922864480528931223990068074146931int, 975258862138234497501502464167199400705606393990389302178648032907625157374int);
    square(426173821int, 975258862138234497501502464167199400705606393990389302178648032907625157374int, 131425882986506371543942433220121700446775961755452269854245865830429237934int, 7232046672972164392716347785116782272069947763230477244222753543362230759150int);
}

/// A stretch of the chain.
proof fn power_3()
    ensures
        chain_residue(base(), 1745607972618int, modulus()) == 5328262228400811278332535113572013722887469185981759636883888747666703065620int,
{
    power_2();
    square(852347642int, 7232046672972164392716347785116782272069947763230477244222753543362230759150int, 7227091166527432233223905323099713756222008375846874575572412231713732760838int, 4670517742688580497502152294918612665672671465368314570946196620062946753718int);
    multiply(1704695284int, 4670517742688580497502152294918612665672671465368314570946196620062946753718int, 1920306785085999797723712429947018894850910842183295022508842571292133535032int, 1339835528936441179073448645206275064080348347380556628301920123893429482590int);
    square(1704695285int, 1339835528936441179073448645206275064080348347380556628301920123893429482590int, 248052765113680186288975291931189069818533107561330477003909656307178830960int, 2322436412494837480674713077198563283932827057896005009108964125671669288660int);
    multiply(3409390570int, 2322436412494837480674713077198563283932827057896005009108964125671669288660int, 954881374302915893203271672459983739490725410912065040194084263401176220985int, 3845953451858417029761895654704770115424302248007699415941171832213454746895int);
    square(3409390571int, 3845953451858417029761895654704770115424302248007699415941171832213454746895int, 2043850567172580605471271658559583074000740713189496632594737819431480671637int, 3898815176107785772258727353627549282126311261041154374883261816638020642032int);
    multiply(6818781142int, 3898815176107785772258727353627549282126311261041154374883261816638020642032int, 1603017405981677502722317162596630877424631718084466377005950725651491756023int, 4778554895186897331026025208657200810864931419910679177085683967649218589765int);
    square(6818781143int, 4778554895186897331026025208657200810864931419910679177085683967649218589765int, 3155253459778601996912076142123649843035912347955642230564362537576529457652int, 5470573762597613452518301541285217260694163667102453414694111630309308137397int);
    square(13637562286int, 5470573762597613452518301541285217260694163667102453414694111630309308137397int, 4135298359553468975073297255326008238741000191859994337324905737550950952932int, 3838734098177115757655769727859307005388404832769746463616212370121576485861int);
    square(27275124572int, 3838734098177115757655769727859307005388404832769746463616212370121576485861int, 2036184623466834588207301016058619848368236779177303026559188444695860941584int, 1685680740718780297972317168860174858816747602262035464124602273948929684745int);
    square(54550249144int, 1685680740718780297972317168860174858816747602262035464124602273948929684745int, 392637469913028535260627730986011382077298659467445801535194654383169889051int, 1416954027420938847720355136703742910617445099837963540998531035653648693586int);
    square(109100498288int, 1416954027420938847720355136703742910617445099837963540998531035653648693586int, 277429483005114365925915278671059940991942959864572907264496424678802935875int, 4270803095371365620741298402043641232836493894566183861843249931352195209021int);
    multiply(218200996576int, 4270803095371365620741298402043641232836493894566183861843249931352195209021int, 1755962103911605789471940488193323573747822235386999641253021632034232177949int, 2277625253387548773050836222144282001429162223638617787819795107505666852900int);
    square(218200996577int, 2277625253387548773050836222144282001429162223638617787819795107505666852900int, 716812601487722469902900389041882016895582883544412760554003577086253172289int, 7118910014781095259080807891013972927600984151043010906894207295608572766179int);
    square(436401993154int, 7118910014781095259080807891013972927600984151043010906894207295608572766179int, 7002741569978456782140403600207593719266526624225834163175131797119233603196int, 7128188681845097906022759461348442856590681238327970508162629370725989699197int);
    multiply(872803986308int, 7128188681845097906022759461348442856590681238327970508162629370725989699197int, 2930790513010813314490211422683089491067322790634491406664267762552290487810int, 6134593861319037289789948958364387858537729574311061636944645575245153625187int);
    square(872803986309int, 6134593861319037289789948958364387858537729574311061636944645575245153625187int, 5200112317338540982636670031215766069954188795339230590273917206478165979241int, 5328262228400811278332535113572013722887469185981759636883888747666703065620int);
}

/// A stretch of the chain.
proof fn power_4()
    ensures
        chain_residue(base(), 1787502563961435int, modulus()) == 1092123562769034915971588250726813403492448076436788258539094413809413206452int,
{
    power_3();
    square(1745607972618int, 5328262228400811278332535113572013722887469185981759636883888747666703065620int, 3922945487775645612285739257514774171796919289860372583771955937066707889348int, 6364050359334963630057923325773793558692028757608344425216603281215594419228int);
    multiply(3491215945236int, 6364050359334963630057923325773793558692028757608344425216603281215594419228int, 2616611210778733905267125459646343383602540775377222459148977472808873811515int, 5068113050575366065211048013365614901180335073665548033998180864435499602813int);
    square(3491215945237int, 5068113050575366065211048013365614901180335073665548033998180864435499602813int, 3549226212270068182703716758984459870079339640861338349672047624635202732240int, 1718495378464035805711659598336842377855300719744370394524983500545235327609int);
    square(6982431890474int, 1718495378464035805711659598336842377855300719744370394524983500545235327609int, 408072970822675715363920531931217984721970428692002349462506451863086918317int, 6887582957483371436589356537548330497280761093428025289515474281310098191368int);
    square(13964863780948int, 6887582957483371436589356537548330497280761093428025289515474281310098191368int, 6555031426920979465726890045551952640543792296000967222081559353160313609036int, 5793716976958071197619890702060792188976450115239105916491174029989987374820int);
    multiply(27929727561896int, 5793716976958071197619890702060792188976450115239105916491174029989987374820int, 2382115781304370173954708708920410111468107001805138588304142021257367242736int, 5526015572155153395405326310132533924072550694568389843727123037820615233716int);
    square(27929727561897int, 5526015572155153395405326310132533924072550694568389843727123037820615233716int, 4219541877838082121441762594916122368405195940579732129189064588038712902622int, 313295167023036127677692683007909182448531532354115392544593201192198975498int);
    square(55859455123794int, 313295167023036127677692683007909182448531532354115392544593201192198975498int, 13562772700829398165733940107146954611386857527015993317465042557294529883int, 5813725984929785341659602738597036183472241256108795870768824978462161543717int);
    multiply(111718910247588int, 5813725984929785341659602738597036183472241256108795870768824978462161543717int, 2390342585245126451841419983564017222873470126644338563103012418158808131967int, 4031628884245940659201867650444596229884128510765748985336198123431516081234int);
    square(111718910247589int, 4031628884245940659201867650444596229884128510765748985336198123431516081234int, 2245960886253427914177941862208024733466472884531677566093728289676552224232int, 3517458620561785612161376879145821025431302426199963741239810067460551197308int);
    multiply(223437820495178int, 3517458620561785612161376879145821025431302426199963741239810067460551197308int, 1446220746275499054008388679804918002107778371193354394604785105012087879977int, 6756559511649337746891729872501579109041184293156758715679779586439926903175int);
    square(223437820495179int, 6756559511649337746891729872501579109041184293156758715679779586439926903175int, 6308009016525761942086344059659889438885383896634588053859806720120039198078int, 2652227010534551215791592018804486517511722043694244659468408616470126681483int);
    square(446875640990358int, 2652227010534551215791592018804486517511722043694244659468408616470126681483int, 971991528850259774844494777839002903777600822289392452799716967879270120849int, 5100564806839548322908384830368076744611984401624663169068681209259327309628int);
    multiply(893751281980716int, 5100564806839548322908384830368076744611984401624663169068681209259327309628int, 2097122791510168453906722284734879216724898078096091928875549095511671844373int, 462477126691646604852233844056087044348329091629879729366238054346830152651int);
    square(893751281980717int, 462477126691646604852233844056087044348329091629879729366238054346830152651int, 29554363393458187230596082683604002135490111707584805840237313317021786071int, 5574669441395582415234883187735701240860747325464964682947563450823664153582int);
    multiply(1787502563961434int, 5574669441395582415234883187735701240860747325464964682947563450823664153582int, 2292053288884659595278156917276606095822471696025175970027577351909878331490int, 1092123562769034915971588250726813403492448076436788258539094413809413206452int);
}

/// A stretch of the chain.
proof fn power_5()
    ensures
        chain_residue(base(), 3660805250993020712int, modulus()) == 2915986389236401745346194538681290945727432539591237358064765521812799272282int,
{
    power_4();
    square(1787502563961435int, 1092123562769034915971588250726813403492448076436788258539094413809413206452int, 164810412761212920567031183820943993642608212077808652974193607012848354532int, 487774036435987460096381740223087476636118251460459729308448372534790796156int);
    multiply(3575005127922870int, 487774036435987460096381740223087476636118251460459729308448372534790796156int, 200550740487630734624233113501781553436111582644191885454669266598784197957int, 5421557474433518068047149429459997187784186647317253377785834519056766138523int);
    square(3575005127922871int, 5421557474433518068047149429459997187784186647317253377785834519056766138523int, 4061525880351888989423525878281173992431503158279923300122576676671856857862int, 3280758233936420699774084140567870367196410762195313093991242103992178696011int);
    multiply(7150010255845742int, 3280758233936420699774084140567870367196410762195313093991242103992178696011int, 1348900195640460989623342438537381671190863215446941998329134711199459460009int, 3254905801580584261843399729954591176081151368565146701884286132368072336150int);
    square(7150010255845743int, 3254905801580584261843399729954591176081151368565146701884286132368072336150int, 1463922013594510153256836476407375226542874484259252967283492368520753677706int, 31599198419321472365730150994969760783135537530821241386097039585259071266int);
    multiply(14300020511691486int, 31599198419321472365730150994969760783135537530821241386097039585259071266int, 12992168849565558306432591822028600970976230968176541621108036044532649558int, 1296534272086845583837664037449927365436482738856045993470301139685861520644int);
    square(14300020511691487int, 1296534272086845583837664037449927365436482738856045993470301139685861520644int, 232278544037743409402633742741489526635506798776761523179340927855640745345int, 4891654009435638651280300093915597791732668469769240570550354040973374778531int);
    square(28600041023382974int, 4891654009435638651280300093915597791732668469769240570550354040973374778531int, 3306378403655771368570170992535554617725090283218582325744078367960317885041int, 4306494374039268621827171544403568333158836266692698756504493953554035962412int);
    square(57200082046765948int, 4306494374039268621827171544403568333158836266692698756504493953554035962412int, 2562647436906956685481772205416967530020581316404415590476716690711726034938int, 625388427043266954482272003552065045852835738575097627514036451193441804062int);
    multiply(114400164093531896int, 625388427043266954482272003552065045852835738575097627514036451193441804062int, 257131587101974550921825637424301800794933683813534582401237609732613880377int, 2554917143540569773049038972209925517271115854055866791970506021220672124889int);
    square(114400164093531897int, 2554917143540569773049038972209925517271115854055866791970506021220672124889int, 901975484280853420466659436785117227143916469076913563689415826842162770529int, 1328035523556881608489263363901372640252801584734533986571099052849634959140int);
    square(228800328187063794int, 1328035523556881608489263363901372640252801584734533986571099052849634959140int, 243702776373862592870980370227237418415296797623640326153025887734745643408int, 3102468127988140503715440161618265321102545730876725200397298099367944209088int);
    multiply(457600656374127588int, 3102468127988140503715440161618265321102545730876725200397298099367944209088int, 1275595324739981723625458860392219693909346031302387647272630346964582290536int, 7134371117446103865216959443592411193561527779451123840030946110144305821304int);
    square(457600656374127589int, 7134371117446103865216959443592411193561527779451123840030946110144305821304int, 7033192208788082952306392398647388026080624450322344746904632466219176001430int, 188523677428841010405736405542353609829253288886862151447453405257337346146int);
    square(915201312748255178int, 188523677428841010405736405542353609829253288886862151447453405257337346146int, 4911033516764961113266410286131799797759606495754713068019023056507557161int, 5950937928174422822158710504629254416731799558887744948453710811854862771087int);
    square(1830402625496510356int, 5950937928174422822158710504629254416731799558887744948453710811854862771087int, 4893413698050407829693401786172295903062401536081605471681103168965875794883int, 2915986389236401745346194538681290945727432539591237358064765521812799272282int);
}

/// A stretch of the chain.
proof fn power_6()
    ensures
        chain_residue(base(), 3748664577016853210171int, modulus()) == 753551993235866361145761596977529406829346963604980905870871845897124306118int,
{
    power_5();
    multiply(3660805250993020712int, 2915986389236401745346194538681290945727432539591237358064765521812799272282int, 1198922422944418156918761443201619353299507877484854805758084124950882995364int, 411825343483996257611815539872320170345517991326091655106628756551513621766int);
    square(3660805250993020713int, 411825343483996257611815539872320170345517991326091655106628756551513621766int, 23435122679320949360032882842855799009646141289690389997686380518512558229int, 7117563868734802047275881506376221479291359384108005754928868625801065620275int);
    square(7321610501986041426int, 7117563868734802047275881506376221479291359384108005754928868625801065620275int, 7000093461886419640176658148028078817316447188587050307166264379662373591808int, 3989969181280255186335235942736903610090399073381571776800577477124224777513int);
    square(14643221003972082852int, 3989969181280255186335235942736903610090399073381571776800577477124224777513int, 2199784689600125831495361533266038260089526768351229912636378657013665269311int, 3490372181868742354696434686493642367696352843075611705518930043419877366590int);
    square(29286442007944165704int, 3490372181868742354696434686493642367696352843075611705518930043419877366590int, 1683389329714183580856839896279892454157958933544997528472817327112424247733int, 5783831035136462902736562723384550844154587593134393782326140327927951970163int);
    square(58572884015888331408int, 5783831035136462902736562723384550844154587593134393782326140327927951970163int, 4622450692561054284216455634890906763871886167750683710024552198053614380563int, 3431559582824944745314934491854504981900532150334697765690090769542877119762int);
    multiply(117145768031776662816int, 3431559582824944745314934491854504981900532150334697765690090769542877119762int, 1410902926263651918011343675203261905740915687941146206665237661512708357299int, 5858869158663132591161194241788209898664931923963506911211883414311703712731int);
    square(117145768031776662817int, 5858869158663132591161194241788209898664931923963506911211883414311703712731int, 4743170010238900078109534198849891174957950081700059865654062636770547838132int, 544835139255168634125340578652606995738123247339549984541620993126498565813int);
    multiply(234291536063553325634int, 544835139255168634125340578652606995738123247339549984541620993126498565813int, 224011698981942503253100991701791114713996889238774169234545070040356014459int, 907442934358854047637305936318112521146504401428409400736707451646556972182int);
    square(234291536063553325635int, 907442934358854047637305936318112521146504401428409400736707451646556972182int, 113783618144087758657517933966341358615944850423026699782277667473129801391int, 5741076568143998945365664056794821428109553156745087023563743943513286515425int);
    multiply(468583072127106651270int, 5741076568143998945365664056794821428109553156745087023563743943513286515425int, 2360472413312971884797971463864395028633707268573079355349655399688377814431int, 34280521956364557954289963722217602328213955130427748008874423572606765166int);
    square(468583072127106651271int, 34280521956364557954289963722217602328213955130427748008874423572606765166int, 162381274001170965000799845407059922472698293384654856034619275644273123int, 1655621807837006465932773618913923224169161433653386660467148861137362138909int);
    square(937166144254213302542int, 1655621807837006465932773618913923224169161433653386660467148861137362138909int, 378759355826820878345594724893836547824432546788591241395301222550484837092int, 3593363800997790546200631547684786990673377013926241084303384796756866826293int);
    multiply(1874332288508426605084int, 3593363800997790546200631547684786990673377013926241084303384796756866826293int, 1477429541754890596671988771265412914184698541558314076297453495415226016100int, 3497669712650507613284074748382949791879406402900035761104143144401838626913int);
    square(1874332288508426605085int, 3497669712650507613284074748382949791879406402900035761104143144401838626913int, 1690435814656691752178263479085687735226667816694678913231933021419754456663int, 6780601290802707296720301619537714131038738744488630158035049334293882519862int);
    multiply(3748664577016853210170int, 6780601290802707296720301619537714131038738744488630158035049334293882519862int, 2787878214588666193688619075768267382879358540957400378138606579809984202416int, 753551993235866361145761596977529406829346963604980905870871845897124306118int);
}

/// A stretch of the chain.
proof fn power_7()
    ensures
        chain_residue(base(), 3838632526865257687215518int, modulus()) == 5220045584148615789795434171784326911096181600416998055376533380565817207224int,
{
    power_6();
    square(3748664577016853210171int, 753551993235866361145761596977529406829346963604980905870871845897124306118int, 78463475043923782534844077036689421531659785746239363313539174710944100870int, 3187299450540158386272385638157220676011797409842971349402041092809058969494int);
    square(7497329154033706420342int, 3187299450540158386272385638157220676011797409842971349402041092809058969494int, 1403740494443339521931383484931413403334594172970454987664212240344266189212int, 5517625850740670554461736652603563183918716760662774471254277616344410485368int);
    multiply(14994658308067412840684int, 5517625850740670554461736652603563183918716760662774471254277616344410485368int, 2268599530604482661409537892344832121475043666727481994807810085115054082590int, 4814489234450794997775462157635832024044394994990440081038285557998157235378int);
    square(14994658308067412840685int, 4814489234450794997775462157635832024044394994990440081038285557998157235378int, 3202886379035659538757641351662940643453922475366219949285154581033983141856int, 5505325816566779802132022227786986395737317157967032047427513787694679507300int);
    multiply(29989316616134825681370int, 5505325816566779802132022227786986395737317157967032047427513787694679507300int, 2263542309888880511269557329367090766386647264230844666447528775496142743705int, 4339137218290786660696936436234341818784697761099804949106833620563200005055int);
    square(29989316616134825681371int, 4339137218290786660696936436234341818784697761099804949106833620563200005055int, 2601643953146822065534255971417295554936534287828202089982707621368655699635int, 5897749416546717959019417165617255298286931755725995111976212482817339864010int);
    square(59978633232269651362742int, 5897749416546717959019417165617255298286931755725995111976212482817339864010int, 4806331542610083820294542803007300119364608280262223087347577218968103422828int, 3029620220494042437595480225515917770505784807488588185628780230631389103208int);
    square(119957266464539302725484int, 3029620220494042437595480225515917770505784807488588185628780230631389103208int, 1268286804859673322241953301279363247926243814760452701159782607667596706792int, 731938255246817764894074529822425051513040867213604810113718210769066873976int);
    multiply(239914532929078605450968int, 731938255246817764894074529822425051513040867213604810113718210769066873976int, 300940083144908664242012244011906535427512079416916414125664776989084712006int, 145576197706388446385893457198334689586900576946925209569102000123920416682int);
    square(239914532929078605450969int, 145576197706388446385893457198334689586900576946925209569102000123920416682int, 2928342269768091857911491082063853075707128436190290350696146447997347381int, 2031577833797609291786655495386839225549526972829141486528868656938308079315int);
    multiply(479829065858157210901938int, 2031577833797609291786655495386839225549526972829141486528868656938308079315int, 835293411480782245517016289086106948188012048199305953045673548804180300299int, 776249330576967542000958982451847261555266920670581560480256850267135775204int);
    square(479829065858157210901939int, 776249330576967542000958982451847261555266920670581560480256850267135775204int, 83261373337687788258180292530069219217750505721482302410899607121071244211int, 5095538175556311221045033865281354613224713692842874777465534620284713966937int);
    multiply(959658131716314421803878int, 5095538175556311221045033865281354613224713692842874777465534620284713966937int, 2095056066857545852552301342001086044442929029972314451749754023261486382582int, 6339953942788253099119621015750423195978271047850722805158757607715429597019int);
    square(959658131716314421803879int, 6339953942788253099119621015750423195978271047850722805158757607715429597019int, 5554094931552227014700953559143957228892273437533817695215083305708434610401int, 3067140455623024836110214128727822631844302362018161407075239487067249749772int);
    multiply(1919316263432628843607758int, 3067140455623024836110214128727822631844302362018161407075239487067249749772int, 1261070175135266861213003424608083398474037115359390105079202267119173807737int, 5926022464772768746530451445181677779226976856919225296387440819281864285959int);
    square(1919316263432628843607759int, 5926022464772768746530451445181677779226976856919225296387440819281864285959int, 4852523861939150593210148982216968290003961049250626113387775977507386756413int, 5220045584148615789795434171784326911096181600416998055376533380565817207224int);
}

/// A stretch of the chain.
proof fn power_8()
    ensures
        chain_residue(base(), 3930759707510023871708692134int, modulus()) == 4531195451704457469207016925014614825100777328164223857500024836172827618238int,
{
    power_7();
    multiply(3838632526865257687215518int, 5220045584148615789795434171784326911096181600416998055376533380565817207224int, 2146247912105872428300654121391408464093896113845937896347157663135372760020int, 1634748694155654526929866670586332761474284327209465085384214812600691698804int);
    square(3838632526865257687215519int, 1634748694155654526929866670586332761474284327209465085384214812600691698804int, 369269204574626169558874201713370662029397660654686131690160488877649013732int, 4555381262897436168635810947728069929820958613797349915385841613932819449468int);
    multiply(7677265053730515374431038int, 4555381262897436168635810947728069929820958613797349915385841613932819449468int, 1872967844194496621813355482280739265029030867173720159920856887147072907202int, 1284026807455423192505295227703756590935588600435245165864999389554859882210int);
    square(7677265053730515374431039int, 1284026807455423192505295227703756590935588600435245165864999389554859882210int, 227818650220237476474932432871507340573256914757070800796703889768355180757int, 4922958007741334514757819739850152635450286630572702416909079362587933465427int);
    square(15354530107461030748862078int, 4922958007741334514757819739850152635450286630572702416909079362587933465427int, 3348831956395746618902778970989580580094998123205621462881804491978916544040int, 1786927326931284454078003641276600768057532404683848488144604938322772236769int);
    multiply(30709060214922061497724156int, 1786927326931284454078003641276600768057532404683848488144604938322772236769int, 734704129051530582943857168117510610199005077299032593486396506566630090246int, 2841796994325649066628958737266243689728717573594986359959079950024344783635int);
    square(30709060214922061497724157int, 2841796994325649066628958737266243689728717573594986359959079950024344783635int, 1115904923750968676757609721206614093961895383549915991110743907962918343654int, 6011524715131614611361876334011909288835080468181780963744648963913892439419int);
    square(61418120429844122995448314int, 6011524715131614611361876334011909288835080468181780963744648963913892439419int, 4993561081924680758393833957457281075002495617837147344680136378595765843260int, 7005415963387282166886749671904339837105456122282199921853487546597311073421int);
    multiply(122836240859688245990896628int, 7005415963387282166886749671904339837105456122282199921853487546597311073421int, 2880311894307979547004993429396631737687268459139407493263096641178650056203int, 564213561823226683705834385496685200092098259774372862150619757570851640094int);
    square(122836240859688245990896629int, 564213561823226683705834385496685200092098259774372862150619757570851640094int, 43987384000690358115295820233127612029959401859484029928307500708485305927int, 2191644937432920979774799744878032042950352474757909358905199947905401017033int);
    square(245672481719376491981793258int, 2191644937432920979774799744878032042950352474757909358905199947905401017033int, 663714775461865693589859064882312661038088246100156288787954061756344261347int, 112756254977436283336307637432760190619997649681595324845101718754406900906int);
    square(491344963438752983963586516int, 112756254977436283336307637432760190619997649681595324845101718754406900906int, 1756800226375299681218827716875725276858980307439289960805619425854129218int, 3960766194414956877464242170274261911535599479046363339184799989098293324234int);
    multiply(982689926877505967927173032int, 3960766194414956877464242170274261911535599479046363339184799989098293324234int, 1628488877743984856746515197815719372008690112158712499982150238244929680809int, 400934171919470011904101983247044467996775968726298184916411961360045511893int);
    square(982689926877505967927173033int, 400934171919470011904101983247044467996775968726298184916411961360045511893int, 22211978213233168377843656586448773692155270275184065200929908852671626978int, 66435647691469338990293220735711352277796010344357895438049985715408862207int);
    multiply(1965379853755011935854346066int, 66435647691469338990293220735711352277796010344357895438049985715408862207int, 27315349616908230453089543643930833119782164721930728053639715722299705996int, 5152522076661186630784708529908289821202155929483373122171021069965002548643int);
    square(1965379853755011935854346067int, 5152522076661186630784708529908289821202155929483373122171021069965002548643int, 3668434888821424615769565064967887932506987442403155565906095170844044547799int, 4531195451704457469207016925014614825100777328164223857500024836172827618238int);
}

/// A stretch of the chain.
proof fn power_9()
    ensures
        chain_residue(base(), 16100391761961057778518802984450int, modulus()) == 7113045816880856929306035707935527500550475271257912900586359964852534646399int,
{
    power_8();
    square(3930759707510023871708692134int, 4531195451704457469207016925014614825100777328164223857500024836172827618238int, 2837048003093520140675140289243782963870674227291209946252968774290733373982int, 4465271030807621539548095089552531050728405426429236431386113452283239856446int);
    multiply(7861519415020047743417384268int, 4465271030807621539548095089552531050728405426429236431386113452283239856446int, 1835918570512017199587110809351066606809238299481217647639088222571432076548int, 5533442335595301268616552986103002249730851036379953049301492321863584987914int);
    square(7861519415020047743417384269int, 5533442335595301268616552986103002249730851036379953049301492321863584987914int, 4230891320197833998699652438562182395906583202334592693836647070633598449406int, 4892200688697544738547143387396865957405137428435186497134582277441984108862int);
    multiply(15723038830040095486834768538int, 4892200688697544738547143387396865957405137428435186497134582277441984108862int, 2011452839723148844607524273460510199749263602941777005244421412666702623087int, 6902489249525100973640825952337627475852702965359600519553582588475731061499int);
    square(15723038830040095486834768539int, 6902489249525100973640825952337627475852702965359600519553582588475731061499int, 6583435280061297218199427945101793812879190574866739891887062194290211146950int, 496136416848479089761455438196425867244721780012210516147847151694458293451int);
    multiply(31446077660080190973669537078int, 496136416848479089761455438196425867244721780012210516147847151694458293451int, 203988975118195261213942418643563685705929909077714876549245229401979492674int, 3828503647564192572848597344725766666563865501677396097174385626016505419505int);
    square(31446077660080190973669537079int, 3828503647564192572848597344725766666563865501677396097174385626016505419505int, 2025345983609897847431867966520685433503362266568876651933242385341722155066int, 1243211742153262088158510029980596133359341843445431124147336639324092584751int);
    square(62892155320160381947339074158int, 1243211742153262088158510029980596133359341843445431124147336639324092584751int, 213565599654751964309269431024550137844597512956908796027986471929634488461int, 1599615131057285828866401146134626107165134744942877434958374434407199394072int);
    square(125784310640320763894678148316int, 1599615131057285828866401146134626107165134744942877434958374434407199394072int, 353567306279545881068960754961806232935018973220824130962068308253273561753int, 2949325410373890190800257305559786875344888621327205062891411237085095917467int);
    square(251568621280641527789356296632int, 2949325410373890190800257305559786875344888621327205062891411237085095917467int, 1201950210391243580314786332575322805837079904720168831627650435218909882187int, 4901494658709632944356793330894408093320096553969786363990140452770157463146int);
    square(503137242561283055578712593264int, 4901494658709632944356793330894408093320096553969786363990140452770157463146int, 3319694814746175231177657945279081277758448209010645936447652082816322285667int, 67210548745676515025393336008340302021520231139563852896400658780372942653int);
    square(1006274485122566111157425186528int, 67210548745676515025393336008340302021520231139563852896400658780372942653int, 624188804944949486659628520052471236117362367496213899493063456861430036int, 4845517747046130115893425722389956509915260715421382383601860581212619372805int);
    square(2012548970245132222314850373056int, 4845517747046130115893425722389956509915260715421382383601860581212619372805int, 3244303460326191365174734838489984489350432809122442799626763639539763437289int, 3041283684093752129064944244956083837717697560019017553972313346412005839204int);
    square(4025097940490264444629700746112int, 3041283684093752129064944244956083837717697560019017553972313346412005839204int, 1278070929792543231612339571130584395270105985319498184445818563483003912526int, 1224889223447590453904833639014474821098698452339378434578766436326498365402int);
    multiply(8050195880980528889259401492224int, 1224889223447590453904833639014474821098698452339378434578766436326498365402int, 503619345081667137963542561667928968120330668000429308670877229295982128933int, 2836034540537431034138432208359246862746003057115975151340014098249207601945int);
    square(8050195880980528889259401492225int, 2836034540537431034138432208359246862746003057115975151340014098249207601945int, 1111383959729686782390576197985057414539061550691511905939602168676117127034int, 7113045816880856929306035707935527500550475271257912900586359964852534646399int);
}

/// A stretch of the chain.
proof fn power_10()
    ensures
        chain_residue(base(), 32973602328496246330406508512155988int, modulus()) == 3646808856203844101026017867734883755081602168997336386393188163017810213043int,
{
    power_9();
    multiply(16100391761961057778518802984450int, 7113045816880856929306035707935527500550475271257912900586359964852534646399int, 2924564448163507170490128286716335903469814198610004050473140831485557243175int, 3187140821721894353618108366811835673416535178079388375617925961447358219684int);
    square(16100391761961057778518802984451int, 3187140821721894353618108366811835673416535178079388375617925961447358219684int, 1403600772300434067651331196903265546646486090538217246660418379142847340065int, 6577519826477952044340455416298967066679499882711771073576371101812459485571int);
    square(32200783523922115557037605968902int, 6577519826477952044340455416298967066679499882711771073576371101812459485571int, 5978130955601478783350093657266379622103444457909005093930741886587625001864int, 2401245403296034540885638008628402679457861095487132852146354580796108352545int);
    square(64401567047844231114075211937804int, 2401245403296034540885638008628402679457861095487132852146354580796108352545int, 796735531738503517008247961672553609737038548383838612763795957915124714588int, 4338132125964644571810980187042282116135332582289660204702746210674066249493int);
    multiply(128803134095688462228150423875608int, 4338132125964644571810980187042282116135332582289660204702746210674066249493int, 1783644772387480017832262591223744411649380084428996886835548810732101908408int, 6154327589896182874853646137040800447085038771489091226940757116181492805501int);
    square(128803134095688462228150423875609int, 6154327589896182874853646137040800447085038771489091226940757116181492805501int, 5233621513625983521000447087253254346433962791098202422540445776612972272235int, 1215070201787233036237322524270237438455081366144903010605008938756489870586int);
    square(257606268191376924456300847751218int, 1215070201787233036237322524270237438455081366144903010605008938756489870586int, 204006419436186595076679944825506192833000811534589351921780910103392679192int, 1318969995889926577354740573822932721279937810616914246983337752724702262508int);
    multiply(515212536382753848912601695502436int, 1318969995889926577354740573822932721279937810616914246983337752724702262508int, 542301126335997824612887692652653458586505642340463302660554185310935285539int, 4228476172108173335766456675138617352296300135478430854887532983529551495557int);
    square(515212536382753848912601695502437int, 4228476172108173335766456675138617352296300135478430854887532983529551495557int, 2470636584016230770986975666986549136313990552616330985476267005807380263656int, 1553866316766494876938242830088053282898575006076915692719743810430571984465int);
    square(1030425072765507697825203391004874int, 1553866316766494876938242830088053282898575006076915692719743810430571984465int, 333632536907829373715408651470701434907608281471735505168270433490515253519int, 2612390344955180050887834667264907944097429138410931539292833755182609855934int);
    multiply(2060850145531015395650406782009748int, 2612390344955180050887834667264907944097429138410931539292833755182609855934int, 1074097387289399424478748164011774699952899958576248814797851921268567889337int, 1964504030525941301007772817929312504219048239494217663306458241798312497401int);
    square(2060850145531015395650406782009749int, 1964504030525941301007772817929312504219048239494217663306458241798312497401int, 533269740462918414358978448761478375767783079223030433681294045046662561746int, 1934864863597291078908523755814458968039295358893641397009201923189237688007int);
    square(4121700291062030791300813564019498int, 1934864863597291078908523755814458968039295358893641397009201923189237688007int, 517299869452827507828137990769223750235107460725218299404166889575616354437int, 5179552000911435775378367759802028923693953138876055770633727044402089843856int);
    multiply(8243400582124061582601627128038996int, 5179552000911435775378367759802028923693953138876055770633727044402089843856int, 2129598772347324175047691267240709987058296840250105154125716065239027800179int, 5403983770020637995369910622100528755303927814972445134569818020607344016665int);
    square(8243400582124061582601627128038997int, 5403983770020637995369910622100528755303927814972445134569818020607344016665int, 4035238093240688757490506925442918209422568978588489427198800436358936909177int, 6131467129197495414970832159506060552218038931497891780818705387348542296172int);
    square(16486801164248123165203254256077994int, 6131467129197495414970832159506060552218038931497891780818705387348542296172int, 5194812793040263803473777140817707778818721531596585927271307520181466670769int, 3646808856203844101026017867734883755081602168997336386393188163017810213043int);
}

/// A stretch of the chain.
proof fn power_11()
    ensures
        chain_residue(base(), 67529937568760312484672529432895465495int, modulus()) == 7071431110398115835782137419425204145035260496960588362887213967186149410889int,
{
    power_10();
    multiply(32973602328496246330406508512155988int, 3646808856203844101026017867734883755081602168997336386393188163017810213043int, 1499403744144367243076740460438240512015709714126374326016264204854760627831int, 2882225482160885780316560010687272457570431065029727441994334545566657781704int);
    square(32973602328496246330406508512155989int, 2882225482160885780316560010687272457570431065029727441994334545566657781704int, 1147881349716991231887518784090801767248277123871736499868452187191129614917int, 82691383222472070697152000675180400723803281129756475743704768749880740703int);
    square(65947204656992492660813017024311978int, 82691383222472070697152000675180400723803281129756475743704768749880740703int, 944847255702453138801855289985086600956375867374703496239383793673596996int, 2698542322039748251634462633301378874339900111910406561664484890041300505165int);
    square(131894409313984985321626034048623956int, 2698542322039748251634462633301378874339900111910406561664484890041300505165int, 1006235325650259946655448096362251267286747286524007187597433413675101520515int, 3809468180146359459910186183693433351054705470360220535066658019739849137890int);
    square(263788818627969970643252068097247912int, 3809468180146359459910186183693433351054705470360220535066658019739849137890int, 2005255856234549515034305136219826217657032534715044157850183821699941420611int, 6011674262432527228394304166788677030577379388199044748020940612886621917821int);
    square(527577637255939941286504136194495824int, 6011674262432527228394304166788677030577379388199044748020940612886621917821int, 4993809532328126882956497807537129409706806174203812216103159017646536635907int, 3112878822973457355498141442896700898021756196555894873233038345807589726018int);
    square(1055155274511879882573008272388991648int, 3112878822973457355498141442896700898021756196555894873233038345807589726018int, 1338953585564126970176207371512957167638718721556232504637384575879589283011int, 5108918096134486241589130197423148228487798467836644482408977036971758488445int);
    square(2110310549023759765146016544777983296int, 5108918096134486241589130197423148228487798467836644482408977036971758488445int, 3606608262782617440606597996816618318888114769297131269679933842936027845873int, 6456825805953268972508795521274722842468844962024711318519281644386848699628int);
    multiply(4220621098047519530292033089555966592int, 6456825805953268972508795521274722842468844962024711318519281644386848699628int, 2654756300776392190344079532113705251757516344985731391928143936441880214086int, 4057725582371205017849475535164214452523009504820076776613830697808913246494int);
    square(4220621098047519530292033089555966593int, 4057725582371205017849475535164214452523009504820076776613830697808913246494int, 2275131161070513957636305505667115368575773246239771793642918876077463822925int, 1839136655941055691988266215693423423507233504633057998078493423662401169211int);
    square(8441242196095039060584066179111933186int, 1839136655941055691988266215693423423507233504633057998078493423662401169211int, 467378890769473938729038612389148494797254312103987659080013923691875517781int, 2271078575984134366691642188298420147955065257160417003858551347297948027112int);
    multiply(16882484392190078121168132358223866372int, 2271078575984134366691642188298420147955065257160417003858551347297948027112int, 933765342344097441794358727329134131262092218572796654301813637574270743795int, 2354103722332992246856434369486896358644598491614374585173670538112436279537int);
    square(16882484392190078121168132358223866373int, 2354103722332992246856434369486896358644598491614374585173670538112436279537int, 765759301451981868312941533979193381935403726090464385203877873988746230634int, 6286080916680354778456730886195493749042953848275925243072362995296888337343int);
    multiply(33764968784380156242336264716447732746int, 6286080916680354778456730886195493749042953848275925243072362995296888337343int, 2584553683539188530365419335307724550426143975863932613899432005948984027312int, 4920004540993080818926510171688855592961871752545423764577797010592978721295int);
    square(33764968784380156242336264716447732747int, 4920004540993080818926510171688855592961871752545423764577797010592978721295int, 3344814982485563482520108453825016238102694867728723306590383908164246789163int, 3485900129181750113974034916404641289808715905320814412032705724780919244818int);
    multiply(67529937568760312484672529432895465494int, 3485900129181750113974034916404641289808715905320814412032705724780919244818int, 1433245314329216646502167480452124462019916221725967006706894837933977016141int, 7071431110398115835782137419425204145035260496960588362887213967186149410889int);
}

/// A stretch of the chain.
proof fn power_12()
    ensures
        chain_residue(base(), 138301312140821119968609340278569913334373int, modulus()) == 5345391411404810418288101046996723597838208633604015262699350333929154546755int,
{
    power_11();
    square(67529937568760312484672529432895465495int, 7071431110398115835782137419425204145035260496960588362887213967186149410889int, 6909644799187711837033311224625183244956172886381278218875354076725916122253int, 7033168557332178744724026851716211043078961682280489660056929063752281612104int);
    square(135059875137520624969345058865790930990int, 7033168557332178744724026851716211043078961682280489660056929063752281612104int, 6835072797343370630124725612054760370308744864262326335113264698080281412993int, 2279772832499896822287912904880291945835303054859375738044286643537731606739int);
    multiply(270119750275041249938690117731581861980int, 2279772832499896822287912904880291945835303054859375738044286643537731606739int, 937340029498349846596036888649386686080136959028556445081542442119406939998int, 756388708090973022785882083416756135475228330041905619567594630696580369677int);
    square(270119750275041249938690117731581861981int, 756388708090973022785882083416756135475228330041905619567594630696580369677int, 79055331879187261091625398311235219050493237426898181612269428247626166554int, 6817163481479588957410688307179371689983837992724045920370346596396547862423int);
    square(540239500550082499877380235463163723962int, 6817163481479588957410688307179371689983837992724045920370346596396547862423int, 6421677783251102935587331043824533250787522236349206071844726029880569359135int, 569720305635546515374361406811570794840498633234037072277253241505365496414int);
    square(1080479001100164999754760470926327447924int, 569720305635546515374361406811570794840498633234037072277253241505365496414int, 44850210931177579246502581096191950993781448750499622401647555724947963229int, 5343189804115278818634622714621069099696266663184677769591321967233337975915int);
    multiply(2160958002200329999509520941852654895848int, 5343189804115278818634622714621069099696266663184677769591321967233337975915int, 2196879275516554895779862724881536510138151869642877829701185170776805850911int, 5626405160998682371803600734236927774292653128386453411800877056311444140536int);
    square(2160958002200329999509520941852654895849int, 5626405160998682371803600734236927774292653128386453411800877056311444140536int, 4374244941148981042470161168300696943075354702777507525224179255421931779062int, 5452109576989614286620776602083071444740949740126393468922423394608275374978int);
    multiply(4321916004400659999019041883705309791698int, 5452109576989614286620776602083071444740949740126393468922423394608275374978int, 2241662186192365747043410470374768604885251823886478809845540226861553159687int, 3754783296966061661329265823458782680036096689860164850620636586113999896455int);
    square(4321916004400659999019041883705309791699int, 3754783296966061661329265823458782680036096689860164850620636586113999896455int, 1948098209476901246078112880231140588645122737065704820849403535937283519705int, 2346674373723191331377566733531449705482701521793917209613737165026324328780int);
    square(8643832008801319998038083767410619583398int, 2346674373723191331377566733531449705482701521793917209613737165026324328780int, 760933587440885121113167154250681117627777318943987482296345740896948168551int, 7129266507327595520505310256887840710655029161937432501048032358036505841461int);
    square(17287664017602639996076167534821239166796int, 7129266507327595520505310256887840710655029161937432501048032358036505841461int, 7023131375178362863617492813438442484180127481549223060804029929320282760271int, 2042289544909021808156674126913760957746553698760392595007157119927914956502int);
    multiply(34575328035205279992152335069642478333592int, 2042289544909021808156674126913760957746553698760392595007157119927914956502int, 839697585206345607903894968530188674654541713968279747918674875219375638223int, 21952488637824817233942468974013434453895289446742614537758430225598509235int);
    square(34575328035205279992152335069642478333593int, 21952488637824817233942468974013434453895289446742614537758430225598509235int, 66589938648558040103527670392804443900014007710180134158821716605869205int, 6254408338159910703737247688877505317459628674264582066067309561819804391480int);
    square(69150656070410559984304670139284956667186int, 6254408338159910703737247688877505317459628674264582066067309561819804391480int, 5405222262501548546982559515287274332423644664359568939182196905995237071508int, 3440182285531756771269815028024777195531848992069526750663804497091123868988int);
    multiply(138301312140821119968609340278569913334372int, 3440182285531756771269815028024777195531848992069526750663804497091123868988int, 1414448193710626396890639380350061420408663026374783804155008715877024319677int, 5345391411404810418288101046996723597838208633604015262699350333929154546755int);
}

/// A stretch of the chain.
proof fn power_13()
    ensures
        chain_residue(base(), 276602624281642239937218680557139826668747int, modulus()) == 1int,
{
    power_12();
    square(138301312140821119968609340278569913334373int, 5345391411404810418288101046996723597838208633604015262699350333929154546755int, 3948208832478625375979463428360242461822876106420698538496777143924201414509int, 4208118878919047937443701731691981957861069370939572123917884174848568830624int);
    multiply(276602624281642239937218680557139826668746int, 4208118878919047937443701731691981957861069370939572123917884174848568830624int, 1730189174056104906699523451970072862598717920228546014040616636588761503547int, 1int);
}

/// The number is prime.
pub proof fn lemma_prime()
    ensures
        is_prime(7237005577332262213973186563042994240857116359379907606001950938285454250989nat),
{
    crate::certificate::first::lemma_prime();
    power_13();
    lemma_chain_end(2975531125133123119648879457563281269120703404158613135195788908093573672641nat, 276602624281642239937218680557139826668747nat, 7237005577332262213973186563042994240857116359379907606001950938285454250989nat, 1);
    lemma_prime_by_element(
        7237005577332262213973186563042994240857116359379907606001950938285454250989nat,
        276602624281642239937218680557139826668747nat,
        276602624281642239937218680557139826668748nat,
        2975531125133123119648879457563281269120703404158613135195788908093573672641nat,
        2233364593245673852815932892735013076939656528578070433728021143254617821614int,
        -918259049265850385831298250211759012539362291049224222049079815310237912731int,
    );
}

} // verus!
