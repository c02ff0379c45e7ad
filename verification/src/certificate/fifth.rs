//! The prime 1257559732178653, by an element of order 531581 * 1224481.

use crate::primality::{
    chain_residue, is_prime, lemma_chain_end, lemma_chain_multiply, lemma_chain_square,
    lemma_chain_start, lemma_prime_by_element_of_two,
};
use vstd::prelude::*;

verus! {

/// The number that is shown to be prime.
pub open spec fn modulus() -> int {
    1257559732178653int
}

/// The element whose powers are followed.
pub open spec fn base() -> int {
    896025394887893int
}

/// One squaring: from the power with exponent `e` to that with `2 * e`.
proof fn square(e: int, h: int, k: int, r: int)
    requires
        e >= 0,
        chain_residue(base(), e, modulus()) == h,
        h * h == k * modulus() + r,
        0 <= r < modulus(),
    ensures
        chain_residue(base(), 2 * e, modulus()) == r,
{
    lemma_chain_square(base(), e, modulus(), h, k, r);
}

/// One multiplication by the base: from the exponent `e` to `e + 1`.
proof fn multiply(e: int, h: int, k: int, r: int)
    requires
        e >= 0,
        chain_residue(base(), e, modulus()) == h,
        h * base() == k * modulus() + r,
        0 <= r < modulus(),
    ensures
        chain_residue(base(), e + 1, modulus()) == r,
{
    lemma_chain_multiply(base(), e, modulus(), h, k, r);
}

/// A stretch of the chain.
proof fn first_0()
    ensures
        chain_residue(base(), 2076int, modulus()) == 243879194117939int,
{
    lemma_chain_start(base(), modulus());
    square(0int, 1int, 0int, 1int);
    multiply(0int, 1int, 0int, 896025394887893int);
    square(1int, 896025394887893int, 638428130084199int, 1054499437575502int);
    square(2int, 1054499437575502int, 884227631812466int, 702990646063706int);
    square(4int, 702990646063706int, 392980019801444int, 1090861615079504int);
    square(8int, 1090861615079504int, 946260470023392int, 799682207835040int);
    square(16int, 799682207835040int, 508517899519603int, 984234580166841int);
    square(32int, 984234580166841int, 770315464155287int, 268430577430870int);
    square(64int, 268430577430870int, 57297457175285int, 1050369272765795int);
    multiply(128int, 1050369272765795int, 748399871851476int, 74631756278107int);
    square(129int, 74631756278107int, 4429132789983int, 51984242670550int);
    multiply(258int, 51984242670550int, 37039355169341int, 1146628502373477int);
    square(259int, 1146628502373477int, 1045482682701281int, 162093069115036int);
    multiply(518int, 162093069115036int, 115493127321094int, 622377837252766int);
    square(519int, 622377837252766int, 308020495879238int, 52463645144342int);
    square(1038int, 52463645144342int, 2188710397925int, 243879194117939int);
}

/// A stretch of the chain.
proof fn first_1()
    ensures
        chain_residue(base(), 531581int, modulus()) == 1252739704402215int,
{
    first_0();
    square(2076int, 243879194117939int, 47295615310912int, 277578517246185int);
    square(4152int, 277578517246185int, 61269322852049int, 459049541944228int);
    multiply(8304int, 459049541944228int, 327077940370350int, 512644134293054int);
    square(8305int, 512644134293054int, 208979344440189int, 228484731561499int);
    multiply(16610int, 228484731561499int, 162797930455809int, 227913030386330int);
    square(16611int, 227913030386330int, 41305671683594int, 340308953750018int);
    multiply(33222int, 340308953750018int, 242473941289038int, 534978130226260int);
    square(33223int, 534978130226260int, 227584895171982int, 701332809487354int);
    multiply(66446int, 701332809487354int, 499707482268100int, 969102788335822int);
    square(66447int, 969102788335822int, 746811614851265int, 848367245369639int);
    multiply(132894int, 848367245369639int, 604471164741695int, 398785412843792int);
    square(132895int, 398785412843792int, 126459047175026int, 283628601019286int);
    square(265790int, 283628601019286int, 63969274188503int, 670495349323337int);
    multiply(531580int, 670495349323337int, 477735446496142int, 1252739704402215int);
}

/// A stretch of the chain.
proof fn second_0()
    ensures
        chain_residue(base(), 1194int, modulus()) == 420055022262535int,
{
    lemma_chain_start(base(), modulus());
    square(0int, 1int, 0int, 1int);
    multiply(0int, 1int, 0int, 896025394887893int);
    square(1int, 896025394887893int, 638428130084199int, 1054499437575502int);
    square(2int, 1054499437575502int, 884227631812466int, 702990646063706int);
    square(4int, 702990646063706int, 392980019801444int, 1090861615079504int);
    multiply(8int, 1090861615079504int, 777251119297766int, 421547746255874int);
    square(9int, 421547746255874int, 141307404989460int, 959737177506496int);
    square(18int, 959737177506496int, 732446679325830int, 899580964691026int);
    multiply(36int, 899580964691026int, 640961513394258int, 1103325372773744int);
    square(37int, 1103325372773744int, 968007202407291int, 1142326534018513int);
    square(74int, 1142326534018513int, 1037652428693835int, 966252567026914int);
    multiply(148int, 966252567026914int, 688465776835747int, 634180503043411int);
    square(149int, 634180503043411int, 319813763234634int, 354232105446919int);
    square(298int, 354232105446919int, 99780854394859int, 1086270733847634int);
    multiply(596int, 1086270733847634int, 773980064998386int, 832361264641104int);
    square(597int, 832361264641104int, 550928323440077int, 420055022262535int);
}

/// A stretch of the chain.
proof fn second_1()
    ensures
        chain_residue(base(), 1224481int, modulus()) == 1139842034583224int,
{
    second_0();
    multiply(1194int, 420055022262535int, 299293908326225int, 774519633913830int);
    square(1195int, 774519633913830int, 477019618208316int, 67300782990552int);
    multiply(2390int, 67300782990552int, 47952561705281int, 241838292620443int);
    square(2391int, 241838292620443int, 46507341385882int, 62627425539303int);
    multiply(4782int, 62627425539303int, 44622742175792int, 14639074590403int);
    square(4783int, 14639074590403int, 170411392301int, 1145832418951856int);
    square(9566int, 1145832418951856int, 1044031467234148int, 355197527602092int);
    square(19132int, 355197527602092int, 100325479884811int, 1148226969636881int);
    multiply(38264int, 1148226969636881int, 818124576959382int, 810854764709287int);
    square(38265int, 810854764709287int, 522826417408178int, 214252104824135int);
    square(76530int, 214252104824135int, 36502412765750int, 917812438963475int);
    square(153060int, 917812438963475int, 669852613407639int, 1235796521145358int);
    square(306120int, 1235796521145358int, 1214409942205442int, 152553792118538int);
    square(612240int, 152553792118538int, 18506206022856int, 340347049964476int);
    multiply(1224480int, 340347049964476int, 242501085268548int, 1139842034583224int);
}

/// A stretch of the chain.
proof fn both_0()
    ensures
        chain_residue(base(), 606int, modulus()) == 1144420733830916int,
{
    lemma_chain_start(base(), modulus());
    square(0int, 1int, 0int, 1int);
    multiply(0int, 1int, 0int, 896025394887893int);
    square(1int, 896025394887893int, 638428130084199int, 1054499437575502int);
    square(2int, 1054499437575502int, 884227631812466int, 702990646063706int);
    square(4int, 702990646063706int, 392980019801444int, 1090861615079504int);
    multiply(8int, 1090861615079504int, 777251119297766int, 421547746255874int);
    square(9int, 421547746255874int, 141307404989460int, 959737177506496int);
    square(18int, 959737177506496int, 732446679325830int, 899580964691026int);
    multiply(36int, 899580964691026int, 640961513394258int, 1103325372773744int);
    square(37int, 1103325372773744int, 968007202407291int, 1142326534018513int);
    multiply(74int, 1142326534018513int, 813920450491529int, 439636530432672int);
    square(75int, 439636530432672int, 153694710434175int, 995859228393309int);
    multiply(150int, 995859228393309int, 709560854678433int, 796533744217188int);
    square(151int, 796533744217188int, 504521566206223int, 333651238269725int);
    multiply(302int, 333651238269725int, 237730244437401int, 1106601663938572int);
    square(303int, 1106601663938572int, 973764673992956int, 1144420733830916int);
}

/// A stretch of the chain.
proof fn both_1()
    ensures
        chain_residue(base(), 1241513int, modulus()) == 2527692038512int,
{
    both_0();
    square(606int, 1144420733830916int, 1041460522716572int, 42209689661540int);
    square(1212int, 42209689661540int, 1416758071791int, 81959943494077int);
    square(2424int, 81959943494077int, 5341640771142int, 387756703250203int);
    multiply(4848int, 387756703250203int, 276280994262014int, 394085774905137int);
    square(4849int, 394085774905137int, 123496001031718int, 364609453472915int);
    multiply(9698int, 364609453472915int, 259788319527326int, 1098790789546217int);
    square(9699int, 1098790789546217int, 960066681763057int, 896771039588868int);
    square(19398int, 896771039588868int, 639491132601764int, 1249854518577532int);
    multiply(38796int, 1249854518577532int, 890535343892319int, 1178620066153769int);
    square(38797int, 1178620066153769int, 1104635608786309int, 757155464443584int);
    square(77594int, 757155464443584int, 455870510694228int, 262908766850172int);
    multiply(155188int, 262908766850172int, 187325441176696int, 520544655497108int);
    square(155189int, 520544655497108int, 215470272650324int, 60189630030092int);
    square(310378int, 60189630030092int, 2880810724499int, 998940193608617int);
    square(620756int, 998940193608617int, 793506252524519int, 506655405759782int);
    multiply(1241512int, 506655405759782int, 360997651564038int, 2527692038512int);
}

/// A stretch of the chain.
proof fn both_2()
    ensures
        chain_residue(base(), 1271310222int, modulus()) == 398885308461506int,
{
    both_1();
    square(1241513int, 2527692038512int, 5080654920int, 1069594407751384int);
    multiply(2483026int, 1069594407751384int, 762097995866143int, 897917745548533int);
    square(2483027int, 897917745548533int, 641127619738718int, 563384301265235int);
    multiply(4966054int, 563384301265235int, 401417625022289int, 1154951228303138int);
    square(4966055int, 1154951228303138int, 1060714895385523int, 956033674806525int);
    multiply(9932110int, 956033674806525int, 681184701668663int, 558935312250886int);
    square(9932111int, 558935312250886int, 248424528304325int, 284739755210771int);
    square(19864222int, 284739755210771int, 64471472903341int, 998933421834768int);
    square(39728444int, 998933421834768int, 793495494269498int, 758467228987630int);
    square(79456888int, 758467228987630int, 457451461531410int, 616615602026170int);
    multiply(158913776int, 616615602026170int, 439345523049114int, 828884060796368int);
    square(158913777int, 828884060796368int, 546334912499148int, 702591315703780int);
    multiply(317827554int, 702591315703780int, 500604182043616int, 384657946206292int);
    square(317827555int, 384657946206292int, 117657819182319int, 1166886133552957int);
    multiply(635655110int, 1166886133552957int, 831419440247677int, 666567661410520int);
    square(635655111int, 666567661410520int, 353313195285398int, 398885308461506int);
}

/// A stretch of the chain.
proof fn both_3()
    ensures
        chain_residue(base(), 650910834461int, modulus()) == 1int,
{
    both_2();
    multiply(1271310222int, 398885308461506int, 284210250124663int, 737983338527919int);
    square(1271310223int, 737983338527919int, 433076373240172int, 30643562022245int);
    multiply(2542620446int, 30643562022245int, 21833881174125int, 548396246226160int);
    square(2542620447int, 548396246226160int, 239144459845203int, 984691547294041int);
    square(5085240894int, 984691547294041int, 771030924815415int, 158749485773686int);
    square(10170481788int, 158749485773686int, 20039922230771int, 320562344095133int);
    square(20340963576int, 320562344095133int, 81713984491011int, 52912229699506int);
    multiply(40681927152int, 52912229699506int, 37700556321696int, 518585935525370int);
    square(40681927153int, 518585935525370int, 213851768344088int, 561583521283436int);
    multiply(81363854306int, 561583521283436int, 400134549115030int, 1003461690385758int);
    square(81363854307int, 1003461690385758int, 800705794171210int, 347409060054434int);
    multiply(162727708614int, 347409060054434int, 247532846558006int, 325405388121644int);
    square(162727708615int, 325405388121644int, 84201699457370int, 121212543740126int);
    square(325455417230int, 121212543740126int, 11683326353411int, 622999754560493int);
    multiply(650910834460int, 622999754560493int, 443894303237616int, 1int);
}

/// The number is prime.
pub proof fn lemma_prime()
    ensures
        is_prime(1257559732178653nat),
{
    crate::certificate::seventh::lemma_prime();
    crate::certificate::sixth::lemma_prime();
    first_1();
    second_1();
    both_3();
    lemma_chain_end(896025394887893nat, 531581nat, 1257559732178653nat, 1252739704402215int);
    lemma_chain_end(896025394887893nat, 1224481nat, 1257559732178653nat, 1139842034583224int);
    lemma_chain_end(896025394887893nat, 650910834461nat, 1257559732178653nat, 1);
    lemma_prime_by_element_of_two(
        1257559732178653nat,
        531581nat,
        1224481nat,
        650910834461nat,
        650910834462nat,
        896025394887893nat,
        1252739704402215nat,
        -466659544684812int,
        464870912375773int,
        1139842034583224nat,
        212927577457398int,
        -192995844966701int,
    );
}

} // verus!
