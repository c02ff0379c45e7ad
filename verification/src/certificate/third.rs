//! The prime 172054593956031949258510691, by an element of order
//! 4434155615661930479.

use crate::primality::{
    chain_residue, is_prime, lemma_chain_end, lemma_chain_multiply, lemma_chain_square,
    lemma_chain_start, lemma_prime_by_element,
};
use vstd::prelude::*;

verus! {

/// The number that is shown to be prime.
pub open spec fn modulus() -> int {
    172054593956031949258510691int
}

/// The element whose powers are followed.
pub open spec fn base() -> int {
    81982237619807054769897707int
}

/// One squaring: from the power with exponent `e` to that with `2 * e`.
proof fn square(e: int, h: int, k: int, r: int)
    requires
        e >= 0,
        chain_residue(base(), e, modulus()) == h,
        h * h == k * modulus() + r,
        0 <= r < modulus(),
    ensures
        chain_residue(base(), 2 * e, modulus()) == r,
{
    lemma_chain_square(base(), e, modulus(), h, k, r);
}

/// One multiplication by the base: from the exponent `e` to `e + 1`.
proof fn multiply(e: int, h: int, k: int, r: int)
    requires
        e >= 0,
        chain_residue(base(), e, modulus()) == h,
        h * base() == k * modulus() + r,
        0 <= r < modulus(),
    ensures
        chain_residue(base(), e + 1, modulus()) == r,
{
    lemma_chain_multiply(base(), e, modulus(), h, k, r);
}

/// A stretch of the chain.
proof fn power_0()
    ensures
        chain_residue(base(), 984int, modulus()) == 159143041489193602642851483int,
{
    lemma_chain_start(base(), modulus());
    square(0int, 1int, 0int, 1int);
    multiply(0int, 1int, 0int, 81982237619807054769897707int);
    square(1int, 81982237619807054769897707int, 39063689789463345546060664int, 59821682054354784665299025int);
    multiply(2int, 59821682054354784665299025int, 28504413862090453214229184int, 153579152715501658428629531int);
    square(3int, 153579152715501658428629531int, 137087627865599777022477352int, 62465439251802480047909729int);
    multiply(6int, 62465439251802480047909729int, 29764136870856029594057774int, 167814721527529465849429569int);
    square(7int, 167814721527529465849429569int, 163679330576659421555561623int, 120704691136750005636714268int);
    multiply(14int, 120704691136750005636714268int, 57514539095231945132207111int, 48289058518399576327659775int);
    square(15int, 48289058518399576327659775int, 13552867836759487319478607int, 59794813390092532697763188int);
    square(30int, 59794813390092532697763188int, 20780727943071821398366854int, 27875633914558650828887230int);
    multiply(60int, 27875633914558650828887230int, 13282451754645407095611663int, 154289148141410286668792477int);
    square(61int, 154289148141410286668792477int, 138358068139031404634018294int, 32790683544604544003214375int);
    multiply(122int, 32790683544604544003214375int, 15624422157287135126653998int, 144826008405472798401045507int);
    square(123int, 144826008405472798401045507int, 121906496237014564497468923int, 159032709990148984649131256int);
    square(246int, 159032709990148984649131256int, 146996382167360070926361721int, 79683857455852187904478325int);
    square(492int, 79683857455852187904478325int, 36904083715818543859524362int, 159143041489193602642851483int);
}

/// A stretch of the chain.
proof fn power_1()
    ensures
        chain_residue(base(), 4032840int, modulus()) == 24764397087741361588706497int,
{
    power_0();
    square(984int, 159143041489193602642851483int, 147200415124651142330656840int, 92970876319662951003022849int);
    multiply(1968int, 92970876319662951003022849int, 44299662676301864143763739int, 52535660307367689004073594int);
    square(1969int, 52535660307367689004073594int, 16041394422961108190086408int, 8105645884430937486288908int);
    square(3938int, 8105645884430937486288908int, 381864230957890148886695int, 140725908371461146638676219int);
    square(7876int, 140725908371461146638676219int, 115101729233883037754107477int, 120546001178505175748599354int);
    multiply(15752int, 120546001178505175748599354int, 57438924968543589985395899int, 102092554157199242347225069int);
    square(15753int, 102092554157199242347225069int, 60578967260846283519112747int, 93565392158498993608176584int);
    square(31506int, 93565392158498993608176584int, 50882004417800593655183328int, 142708518444080651472949408int);
    multiply(63012int, 142708518444080651472949408int, 67999135625771359346221928int, 151096039430635142899575208int);
    square(63013int, 151096039430635142899575208int, 132690517624064099618900820int, 170741126879681559209576644int);
    square(126026int, 170741126879681559209576644int, 169437686828596750329128291int, 164598567888031770776243655int);
    square(252052int, 164598567888031770776243655int, 157465650453451195486612543int, 80183400632236315187561812int);
    multiply(504104int, 80183400632236315187561812int, 38206562537214512849965914int, 127561181206595508224978510int);
    square(504105int, 127561181206595508224978510int, 94573789497187853380165676int, 72855311472385651364577984int);
    square(1008210int, 72855311472385651364577984int, 30850070827488313313375146int, 151215453489527611882818370int);
    square(2016420int, 151215453489527611882818370int, 132900336156597231789513633int, 24764397087741361588706497int);
}

/// A stretch of the chain.
proof fn power_2()
    ensures
        chain_residue(base(), 33037033792int, modulus()) == 78445683166274024852767058int,
{
    power_1();
    multiply(4032840int, 24764397087741361588706497int, 11799979529040022152820893int, 47214200796341353487635316int);
    square(4032841int, 47214200796341353487635316int, 12956240839502961208240659int, 150228514182530418758034487int);
    square(8065682int, 150228514182530418758034487int, 131171193715746322205540787int, 70825796587000559605299352int);
    square(16131364int, 70825796587000559605299352int, 29155242803136539978118516int, 56450327217502615080565348int);
    square(32262728int, 56450327217502615080565348int, 18521094785632128904015690int, 33022382191202836601619314int);
    square(64525456int, 33022382191202836601619314int, 6337975060756231043227233int, 64498566335887367104982593int);
    multiply(129050912int, 64498566335887367104982593int, 30732900935134995120113377int, 14589050751940438539000744int);
    square(129050913int, 14589050751940438539000744int, 1237051548284055817736735int, 57552129677221337611619651int);
    square(258101826int, 57552129677221337611619651int, 19251143222773442877278202int, 113699920017535457291104219int);
    multiply(516203652int, 113699920017535457291104219int, 54176837978605200919197952int, 29328758471794249968821001int);
    square(516203653int, 29328758471794249968821001int, 4999436828270092462559770int, 40934084723838682207140931int);
    square(1032407306int, 40934084723838682207140931int, 9738765200344478370995770int, 136243923403916848434769691int);
    square(2064814612int, 136243923403916848434769691int, 107886725007970029302043599int, 83194925161226630722618572int);
    square(4129629224int, 83194925161226630722618572int, 40227903326724553618307186int, 151918532565301665696193658int);
    square(8259258448int, 151918532565301665696193658int, 134139054390448042607113321int, 114022955710911814312406153int);
    square(16518516896int, 114022955710911814312406153int, 75564587553965485803022261int, 78445683166274024852767058int);
}

/// A stretch of the chain.
proof fn power_3()
    ensures
        chain_residue(base(), 33829922604842int, modulus()) == 19628997837548694774478452int,
{
    power_2();
    multiply(33037033792int, 78445683166274024852767058int, 37378558105975581765468738int, 112204980075004817160058048int);
    square(33037033793int, 112204980075004817160058048int, 73174201653979405139346643int, 65116772608614351759109991int);
    multiply(66074067586int, 65116772608614351759109991int, 31027469841337584060946914int, 87495891853485353579233063int);
    square(66074067587int, 87495891853485353579233063int, 44494778751406971161958759int, 166354098461477096569769500int);
    multiply(132148135174int, 166354098461477096569769500int, 79266010372165746899401141int, 121409756575586998122438069int);
    square(132148135175int, 121409756575586998122438069int, 85672394167575313349904186int, 19096673214781034833796235int);
    square(264296270350int, 19096673214781034833796235int, 2119576812725669415305071int, 59458510840728682620161164int);
    square(528592540700int, 59458510840728682620161164int, 20547632179472578377213131int, 103230658389044221184751375int);
    multiply(1057185081400int, 103230658389044221184751375int, 49188342903895187125360215int, 82770254184079949174038560int);
    square(1057185081401int, 82770254184079949174038560int, 39818262448998808579127328int, 2996541156987094628609952int);
    square(2114370162802int, 2996541156987094628609952int, 52188428678702872509354int, 8364325721162423746938690int);
    multiply(4228740325604int, 8364325721162423746938690int, 3985514847554940314665430int, 58802870777818717957471700int);
    square(4228740325605int, 58802870777818717957471700int, 20096979291331631176750995int, 142619625909171558448502455int);
    square(8457480651210int, 142619625909171558448502455int, 118220369632617647457059362int, 159117039915028885642387883int);
    multiply(16914961302420int, 159117039915028885642387883int, 75817626694744199016460182int, 156449210348024975103478519int);
    square(16914961302421int, 156449210348024975103478519int, 142259237929883036678961599int, 19628997837548694774478452int);
}

/// A stretch of the chain.
proof fn power_4()
    ensures
        chain_residue(base(), 34641840747358830int, modulus()) == 137527296127837744162376324int,
{
    power_3();
    square(33829922604842int, 19628997837548694774478452int, 2239391272545463126392601int, 127793514932372127990519013int);
    multiply(67659845209684int, 127793514932372127990519013int, 60892290444354006578065779int, 106987526152441206875859902int);
    square(67659845209685int, 106987526152441206875859902int, 66527318387931958980525732int, 13265178877323161408848792int);
    square(135319690419370int, 13265178877323161408848792int, 1022727534333363426741381int, 67935844103917747439254993int);
    square(270639380838740int, 67935844103917747439254993int, 26824502665074068657657251int, 132063614152681873478259608int);
    multiply(541278761677480int, 132063614152681873478259608int, 62926948635631632933667371int, 75896190907074230308555495int);
    square(541278761677481int, 75896190907074230308555495int, 33479093244526022644543884int, 66949986456121590662031181int);
    multiply(1082557523354962int, 66949986456121590662031181int, 31900977312417755366069299int, 109731237503255908776026358int);
    square(1082557523354963int, 109731237503255908776026358int, 69983278023212704030163448int, 129014045317846846525321596int);
    square(2165115046709926int, 129014045317846846525321596int, 96740363082248911152171299int, 42075455703758051569129607int);
    multiply(4330230093419852int, 42075455703758051569129607int, 20048520229274744079072388int, 72669391512255040754211041int);
    square(4330230093419853int, 72669391512255040754211041int, 30692818723055476042663860int, 6855950549841454436976421int);
    multiply(8660460186839706int, 6855950549841454436976421int, 3266789651837970227031422int, 90097334189718058761034045int);
    square(8660460186839707int, 90097334189718058761034045int, 47179964460397667262627057int, 130448742495048145668695638int);
    multiply(17320920373679414int, 130448742495048145668695638int, 62157478963723586932843948int, 2369291506058493784453998int);
    square(17320920373679415int, 2369291506058493784453998int, 32626517616352923836480int, 137527296127837744162376324int);
}

/// A stretch of the chain.
proof fn power_5()
    ensures
        chain_residue(base(), 4434155615661930479int, modulus()) == 1int,
{
    power_4();
    multiply(34641840747358830int, 137527296127837744162376324int, 65530336686291595163438176int, 38378181680977978705149452int);
    square(34641840747358831int, 38378181680977978705149452int, 8560566708928127444744696int, 26779608899402341974355368int);
    multiply(69283681494717662int, 26779608899402341974355368int, 12760207150977578159935991int, 18428159699043902077161395int);
    square(69283681494717663int, 18428159699043902077161395int, 1973775079671798141201592int, 83203491502723113760125953int);
    multiply(138567362989435326int, 83203491502723113760125953int, 39645604655676810522789372int, 111364442547125201442713719int);
    square(138567362989435327int, 111364442547125201442713719int, 72081998967149083000320197int, 97556959874257394643084834int);
    square(277134725978870654int, 97556959874257394643084834int, 55315933164444310797057847int, 134269647252763307925865279int);
    multiply(554269451957741308int, 134269647252763307925865279int, 63978100631342092492534880int, 26319842299224446122613173int);
    square(554269451957741309int, 26319842299224446122613173int, 4026245871895001892816899int, 71946955071623750696160720int);
    multiply(1108538903915482618int, 71946955071623750696160720int, 34281981265846075105802411int, 41516304628964753654393039int);
    square(1108538903915482619int, 41516304628964753654393039int, 10017771164456452133291458int, 63561087250161742579678043int);
    multiply(2217077807830965238int, 63561087250161742579678043int, 30286201829912625371804878int, 68630961674997079174996703int);
    square(2217077807830965239int, 68630961674997079174996703int, 27376246063145504057759464int, 20104818921254881110440585int);
    multiply(4434155615661930478int, 20104818921254881110440585int, 9579738641135691137266134int, 1int);
}

/// The number is prime.
pub proof fn lemma_prime()
    ensures
        is_prime(172054593956031949258510691nat),
{
    crate::certificate::fourth::lemma_prime();
    power_5();
    lemma_chain_end(81982237619807054769897707nat, 4434155615661930479nat, 172054593956031949258510691nat, 1);
    lemma_prime_by_element(
        172054593956031949258510691nat,
        4434155615661930479nat,
        4434155615661930480nat,
        81982237619807054769897707nat,
        -17779243434318459953124787int,
        8471625932319896702492053int,
    );
}

} // verus!
