//! Where in the data archive each table lies.
use vstd::prelude::*;

use crate::kinds::Grade;

verus! {

/// The folder of the binary tables.
pub open spec fn table_dir() -> Seq<char> {
    "gamedata\\adatabin\\"@
}

/// The option table of a grade.
pub open spec fn option_table(g: Grade) -> Seq<char> {
    table_dir() + match g {
        Grade::Common => "itemoption_basicstatnormal.bin"@,
        Grade::Elite => "itemoption_basicstatelite.bin"@,
        Grade::Heroic => "itemoption_basicstatrare.bin"@,
        Grade::Legendary => "itemoption_basicstatlegend.bin"@,
        Grade::Unique => "itemoption_basicstatunique.bin"@,
        Grade::Mythical => "itemoption_basicstatancientmythic.bin"@,
    }
}

/// The name under which the tempering table of a full item type is kept:
/// a few types share another type's table.
pub open spec fn tempering_name(item_type: Seq<char>) -> Seq<char> {
    if item_type == "ne_01"@ {
        "am_01"@
    } else if item_type == "sd_01"@ {
        "sh_01"@
    } else if item_type == "ga_01"@ {
        "g1_01"@
    } else if item_type == "at_01"@ {
        "ar_01"@
    } else {
        item_type
    }
}

/// The tempering table of a full item type.
pub open spec fn tempering_table(item_type: Seq<char>) -> Seq<char> {
    table_dir() + "itemreinforcetable_"@ + tempering_name(item_type) + ".bin"@
}

/// The quality table of an item type.
pub open spec fn quality_table(item_type: Seq<char>) -> Seq<char> {
    table_dir() + "itemqualitytable_"@ + item_type + ".bin"@
}

/// The option table of grade `g`.
pub fn option_table_path(g: Grade) -> (p: String)
    ensures
        p@ == option_table(g),
{
    let mut p = String::from_str("gamedata\\adatabin\\");
    let name = match g {
        Grade::Common => "itemoption_basicstatnormal.bin",
        Grade::Elite => "itemoption_basicstatelite.bin",
        Grade::Heroic => "itemoption_basicstatrare.bin",
        Grade::Legendary => "itemoption_basicstatlegend.bin",
        Grade::Unique => "itemoption_basicstatunique.bin",
        Grade::Mythical => "itemoption_basicstatancientmythic.bin",
    };
    p.append(name);
    p
}

/// The tempering table of the full item type `item_type`.
pub fn tempering_table_path(item_type: &str) -> (p: String)
    ensures
        p@ == tempering_table(item_type@),
{
    let name = if crate::outside::str_eq(item_type, "ne_01") {
        "am_01"
    } else if crate::outside::str_eq(item_type, "sd_01") {
        "sh_01"
    } else if crate::outside::str_eq(item_type, "ga_01") {
        "g1_01"
    } else if crate::outside::str_eq(item_type, "at_01") {
        "ar_01"
    } else {
        item_type
    };
    let mut p = String::from_str("gamedata\\adatabin\\itemreinforcetable_");
    p.append(name);
    p.append(".bin");
    proof {
        reveal_strlit("gamedata\\adatabin\\itemreinforcetable_");
        reveal_strlit("gamedata\\adatabin\\");
        reveal_strlit("itemreinforcetable_");
    }
    assert(p@ =~= tempering_table(item_type@));
    p
}

/// The quality table of the item type `item_type`.
pub fn quality_table_path(item_type: &str) -> (p: String)
    ensures
        p@ == quality_table(item_type@),
{
    let mut p = String::from_str("gamedata\\adatabin\\itemqualitytable_");
    p.append(item_type);
    p.append(".bin");
    proof {
        reveal_strlit("gamedata\\adatabin\\itemqualitytable_");
        reveal_strlit("gamedata\\adatabin\\");
        reveal_strlit("itemqualitytable_");
    }
    assert(p@ =~= quality_table(item_type@));
    p
}

} // verus!

verus! {

/// Where the tables lie in the archive: the option table of each grade
/// (normal, elite, rare, legend, unique, ancient mythic), and the tempering
/// table of each full item type, named after the type except for
/// necklaces, shields, vambraces and crests, which use the tables of
/// "am_01", "sh_01", "g1_01" and "ar_01".
pub proof fn law_table_paths(t: Seq<char>)
    ensures
        option_table(Grade::Common) == "gamedata\\adatabin\\itemoption_basicstatnormal.bin"@,
        option_table(Grade::Elite) == "gamedata\\adatabin\\itemoption_basicstatelite.bin"@,
        option_table(Grade::Heroic) == "gamedata\\adatabin\\itemoption_basicstatrare.bin"@,
        option_table(Grade::Legendary) == "gamedata\\adatabin\\itemoption_basicstatlegend.bin"@,
        option_table(Grade::Unique) == "gamedata\\adatabin\\itemoption_basicstatunique.bin"@,
        option_table(Grade::Mythical) == "gamedata\\adatabin\\itemoption_basicstatancientmythic.bin"@,
        tempering_table("ne_01"@) == "gamedata\\adatabin\\itemreinforcetable_am_01.bin"@,
        tempering_table("sd_01"@) == "gamedata\\adatabin\\itemreinforcetable_sh_01.bin"@,
        tempering_table("ga_01"@) == "gamedata\\adatabin\\itemreinforcetable_g1_01.bin"@,
        tempering_table("at_01"@) == "gamedata\\adatabin\\itemreinforcetable_ar_01.bin"@,
        !(t == "ne_01"@ || t == "sd_01"@ || t == "ga_01"@ || t == "at_01"@) ==> tempering_table(t) == "gamedata\\adatabin\\itemreinforcetable_"@ + t + ".bin"@,
{
    reveal_strlit("gamedata\\adatabin\\");
    reveal_strlit("gamedata\\adatabin\\itemoption_basicstatnormal.bin");
    reveal_strlit("itemoption_basicstatnormal.bin");
    reveal_strlit("gamedata\\adatabin\\itemoption_basicstatelite.bin");
    reveal_strlit("itemoption_basicstatelite.bin");
    reveal_strlit("gamedata\\adatabin\\itemoption_basicstatrare.bin");
    reveal_strlit("itemoption_basicstatrare.bin");
    reveal_strlit("gamedata\\adatabin\\itemoption_basicstatlegend.bin");
    reveal_strlit("itemoption_basicstatlegend.bin");
    reveal_strlit("gamedata\\adatabin\\itemoption_basicstatunique.bin");
    reveal_strlit("itemoption_basicstatunique.bin");
    reveal_strlit("gamedata\\adatabin\\itemoption_basicstatancientmythic.bin");
    reveal_strlit("itemoption_basicstatancientmythic.bin");
    reveal_strlit("gamedata\\adatabin\\itemreinforcetable_am_01.bin");
    reveal_strlit("am_01");
    reveal_strlit("ne_01");
    reveal_strlit("gamedata\\adatabin\\itemreinforcetable_sh_01.bin");
    reveal_strlit("sh_01");
    reveal_strlit("sd_01");
    reveal_strlit("gamedata\\adatabin\\itemreinforcetable_g1_01.bin");
    reveal_strlit("g1_01");
    reveal_strlit("ga_01");
    reveal_strlit("gamedata\\adatabin\\itemreinforcetable_ar_01.bin");
    reveal_strlit("ar_01");
    reveal_strlit("at_01");
    reveal_strlit("itemreinforcetable_");
    reveal_strlit(".bin");
    reveal_strlit("gamedata\\adatabin\\itemreinforcetable_");
    assert(option_table(Grade::Common) =~= "gamedata\\adatabin\\itemoption_basicstatnormal.bin"@);
    assert(option_table(Grade::Elite) =~= "gamedata\\adatabin\\itemoption_basicstatelite.bin"@);
    assert(option_table(Grade::Heroic) =~= "gamedata\\adatabin\\itemoption_basicstatrare.bin"@);
    assert(option_table(Grade::Legendary) =~= "gamedata\\adatabin\\itemoption_basicstatlegend.bin"@);
    assert(option_table(Grade::Unique) =~= "gamedata\\adatabin\\itemoption_basicstatunique.bin"@);
    assert(option_table(Grade::Mythical) =~= "gamedata\\adatabin\\itemoption_basicstatancientmythic.bin"@);
    assert(tempering_name("ne_01"@) == "am_01"@);
    assert("sd_01"@[0] != "ne_01"@[0]);
    assert(tempering_name("sd_01"@) == "sh_01"@);
    assert("ga_01"@[0] != "ne_01"@[0]);
    assert("ga_01"@[0] != "sd_01"@[0]);
    assert(tempering_name("ga_01"@) == "g1_01"@);
    assert("at_01"@[0] != "ne_01"@[0]);
    assert("at_01"@[0] != "sd_01"@[0]);
    assert("at_01"@[0] != "ga_01"@[0]);
    assert(tempering_name("at_01"@) == "ar_01"@);
    assert(tempering_table("ne_01"@) =~= "gamedata\\adatabin\\itemreinforcetable_am_01.bin"@);
    assert(tempering_table("sd_01"@) =~= "gamedata\\adatabin\\itemreinforcetable_sh_01.bin"@);
    assert(tempering_table("ga_01"@) =~= "gamedata\\adatabin\\itemreinforcetable_g1_01.bin"@);
    assert(tempering_table("at_01"@) =~= "gamedata\\adatabin\\itemreinforcetable_ar_01.bin"@);
    assert(table_dir() + "itemreinforcetable_"@ =~= "gamedata\\adatabin\\itemreinforcetable_"@);
}

} // verus!
