//! The prime 4434155615661930479, by an element of order 1257559732178653.

use crate::primality::{
    chain_residue, is_prime, lemma_chain_end, lemma_chain_multiply, lemma_chain_square,
    lemma_chain_start, lemma_prime_by_element,
};
use vstd::prelude::*;

verus! {

/// The number that is shown to be prime.
pub open spec fn modulus() -> int {
    4434155615661930479int
}

/// The element whose powers are followed.
pub open spec fn base() -> int {
    415787812636281767int
}

/// One squaring: from the power with exponent `e` to that with `2 * e`.
proof fn square(e: int, h: int, k: int, r: int)
    requires
        e >= 0,
        chain_residue(base(), e, modulus()) == h,
        h * h == k * modulus() + r,
        0 <= r < modulus(),
    ensures
        chain_residue(base(), 2 * e, modulus()) == r,
{
    lemma_chain_square(base(), e, modulus(), h, k, r);
}

/// One multiplication by the base: from the exponent `e` to `e + 1`.
proof fn multiply(e: int, h: int, k: int, r: int)
    requires
        e >= 0,
        chain_residue(base(), e, modulus()) == h,
        h * base() == k * modulus() + r,
        0 <= r < modulus(),
    ensures
        chain_residue(base(), e + 1, modulus()) == r,
{
    lemma_chain_multiply(base(), e, modulus(), h, k, r);
}

/// A stretch of the chain.
proof fn power_0()
    ensures
        chain_residue(base(), 571int, modulus()) == 1441625947344711542int,
{
    lemma_chain_start(base(), modulus());
    square(0int, 1int, 0int, 1int);
    multiply(0int, 1int, 0int, 415787812636281767int);
    square(1int, 415787812636281767int, 38988145685783810int, 3100996284172897299int);
    square(2int, 3100996284172897299int, 2168660459386835020int, 1773242256918920821int);
    square(4int, 1773242256918920821int, 709128946809304511int, 1145512105644223272int);
    square(8int, 1145512105644223272int, 295929619506954832int, 3557730708409261456int);
    multiply(16int, 3557730708409261456int, 333606034026749420int, 191371067995100572int);
    square(17int, 191371067995100572int, 8259269371654279int, 1264130065473857543int);
    multiply(34int, 1264130065473857543int, 118536632533739317int, 3407277681003375638int);
    square(35int, 3407277681003375638int, 2618207884824238319int, 3417786264626082243int);
    multiply(70int, 3417786264626082243int, 320483536934927575int, 214101093313304956int);
    square(71int, 214101093313304956int, 10337769381850986int, 2838087264384559642int);
    square(142int, 2838087264384559642int, 1816521569926774513int, 2011782750940086437int);
    multiply(284int, 2011782750940086437int, 188643525851519143int, 2678802059063434682int);
    square(285int, 2678802059063434682int, 1618342046069862044int, 4092403524631602048int);
    multiply(570int, 4092403524631602048int, 383741947152563606int, 1441625947344711542int);
}

/// A stretch of the chain.
proof fn power_1()
    ensures
        chain_residue(base(), 292798int, modulus()) == 701885220790377089int,
{
    power_0();
    square(571int, 1441625947344711542int, 468699241117475012int, 3212167485224327016int);
    multiply(1142int, 3212167485224327016int, 301202801224519845int, 1677242294580461517int);
    square(1143int, 1677242294580461517int, 634425572434400461int, 2687445160490390470int);
    multiply(2286int, 2687445160490390470int, 251999939044415836int, 2025415758172895046int);
    square(2287int, 2025415758172895046int, 925161259330924683int, 3519255193000228959int);
    square(4574int, 3519255193000228959int, 2793126400371093715int, 3135824660898384196int);
    multiply(9148int, 3135824660898384196int, 294044185540207381int, 121430195211088833int);
    square(9149int, 121430195211088833int, 3325389000088569int, 1289228472896707338int);
    multiply(18298int, 1289228472896707338int, 120890093446599748int, 4159545457389586954int);
    square(18299int, 4159545457389586954int, 3901942085879530807int, 3025085682354231563int);
    multiply(36598int, 3025085682354231563int, 283660265431536154int, 3110892756709774055int);
    square(36599int, 3110892756709774055int, 2182524607293165084int, 1620872051672947789int);
    multiply(73198int, 1620872051672947789int, 151988090482875776int, 864418649578486459int);
    square(73199int, 864418649578486459int, 168514519224321195int, 240424803190156276int);
    multiply(146398int, 240424803190156276int, 22544473330808157int, 660551860479302489int);
    square(146399int, 660551860479302489int, 98401769852529808int, 701885220790377089int);
}

/// A stretch of the chain.
proof fn power_2()
    ensures
        chain_residue(base(), 1199302416int, modulus()) == 3143521810172763299int,
{
    power_1();
    square(292798int, 701885220790377089int, 111101843477005418int, 535505810993778699int);
    square(585596int, 535505810993778699int, 64672171764836934int, 3235325285506621215int);
    multiply(1171192int, 3235325285506621215int, 303374292701010482int, 161541514745606027int);
    square(1171193int, 161541514745606027int, 5885147759391229int, 3726677655538356038int);
    multiply(2342386int, 3726677655538356038int, 349448076500465681int, 637840665186367947int);
    square(2342387int, 637840665186367947int, 91751564317765870int, 1899344401130043079int);
    multiply(4684774int, 1899344401130043079int, 178100256833439789int, 2501186697341811662int);
    square(4684775int, 2501186697341811662int, 1410851453400278058int, 1075468136614072462int);
    square(9369550int, 1075468136614072462int, 260845990336196921int, 2202897038630886285int);
    square(18739100int, 2202897038630886285int, 1094403485901184250int, 551760777331345475int);
    square(37478200int, 551760777331345475int, 68657932149691553int, 4424643049423431738int);
    multiply(74956400int, 4424643049423431738int, 414895825648975120int, 1755561346417838566int);
    square(74956401int, 1755561346417838566int, 695058069263618765int, 4085330917847097921int);
    square(149912802int, 4085330917847097921int, 3763947446807398527int, 4057194569041517808int);
    square(299825604int, 4057194569041517808int, 3712280126777353989int, 3603580345089794133int);
    square(599651208int, 3603580345089794133int, 2928582672572478410int, 3143521810172763299int);
}

/// A stretch of the chain.
proof fn power_3()
    ensures
        chain_residue(base(), 614042837977int, modulus()) == 850405745392977898int,
{
    power_2();
    multiply(1199302416int, 3143521810172763299int, 294765942090434199int, 3540191439498418012int);
    square(1199302417int, 3540191439498418012int, 2826458183837772743int, 2531410135618898247int);
    multiply(2398604834int, 2531410135618898247int, 237368638903119223int, 1535460892319864632int);
    square(2398604835int, 1535460892319864632int, 531699912271068671int, 3263172742567572015int);
    multiply(4797209670int, 3263172742567572015int, 305985530163664813int, 846233425539415078int);
    square(4797209671int, 846233425539415078int, 161498845004624799int, 1910178490956397363int);
    multiply(9594419342int, 1910178490956397363int, 179116162205568318int, 3904290686882816099int);
    square(9594419343int, 3904290686882816099int, 3437742625414003500int, 458810682590901301int);
    square(19188838686int, 458810682590901301int, 47474031293803448int, 232230085457001009int);
    multiply(38377677372int, 232230085457001009int, 21776060118289060int, 1242140138381043163int);
    square(38377677373int, 1242140138381043163int, 347960752195421366int, 3576961223665830255int);
    multiply(76755354746int, 3576961223665830255int, 335409266607526531int, 3572748445503422236int);
    square(76755354747int, 3572748445503422236int, 2878683691154495391int, 1878626325531317407int);
    square(153510709494int, 1878626325531317407int, 795920841955488090int, 2223371858888708539int);
    square(307021418988int, 2223371858888708539int, 1114841889048200093int, 2297181654644179974int);
    multiply(614042837976int, 2297181654644179974int, 215405190570903040int, 850405745392977898int);
}

/// A stretch of the chain.
proof fn power_4()
    ensures
        chain_residue(base(), 314389933044663int, modulus()) == 2525937638201312080int,
{
    power_3();
    square(614042837977int, 850405745392977898int, 163095298063739380int, 895282167981935384int);
    multiply(1228085675954int, 895282167981935384int, 83950011362401862int, 1138951241107191630int);
    square(1228085675955int, 1138951241107191630int, 292549482259423306int, 3153170444337713326int);
    multiply(2456171351910int, 3153170444337713326int, 295670688076389721int, 4391060440194520683int);
    square(2456171351911int, 4391060440194520683int, 4348384103015511732int, 1072781130921906861int);
    square(4912342703822int, 1072781130921906861int, 259544196147993163int, 270606806085558244int);
    multiply(9824685407644int, 270606806085558244int, 25374619598236290int, 304295795678854238int);
    square(9824685407645int, 304295795678854238int, 20882427071519069int, 4203445876849756593int);
    multiply(19649370815290int, 4203445876849756593int, 394154314408168320int, 4417639776943714551int);
    square(19649370815291int, 4417639776943714551int, 4401185454543871089int, 3046186254313109970int);
    square(39298741630582int, 3046186254313109970int, 2092675923053036358int, 3543628944458045418int);
    multiply(78597483261164int, 3543628944458045418int, 332283721032843813int, 1059822737060017179int);
    square(78597483261165int, 1059822737060017179int, 253311866192073519int, 3141637592340232440int);
    multiply(157194966522330int, 3141637592340232440int, 294589260241842530int, 1841445610388449610int);
    square(157194966522331int, 1841445610388449610int, 764727770049787289int, 2023682010453270669int);
    multiply(314389933044662int, 2023682010453270669int, 189759311474266117int, 2525937638201312080int);
}

/// A stretch of the chain.
proof fn power_5()
    ensures
        chain_residue(base(), 1257559732178653int, modulus()) == 1int,
{
    power_4();
    square(314389933044663int, 2525937638201312080int, 1438912276679212276int, 3809079382358566196int);
    square(628779866089326int, 3809079382358566196int, 3272119203453620944int, 53757135167558240int);
    multiply(1257559732178652int, 53757135167558240int, 5040770686072401int, 1int);
}

/// The number is prime.
pub proof fn lemma_prime()
    ensures
        is_prime(4434155615661930479nat),
{
    crate::certificate::fifth::lemma_prime();
    power_5();
    lemma_chain_end(415787812636281767nat, 1257559732178653nat, 4434155615661930479nat, 1);
    lemma_prime_by_element(
        4434155615661930479nat,
        1257559732178653nat,
        1257559732178654nat,
        415787812636281767nat,
        1010501025739283171int,
        -94754006754933215int,
    );
}

} // verus!
