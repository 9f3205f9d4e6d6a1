//! The built-in English word lists.
use vstd::prelude::*;

verus! {

/// The texts of a sequence of strings.
pub open spec fn views_of(v: Seq<String>) -> Seq<Seq<char>> {
    v.map_values(|s: String| s@)
}

/// The built-in adjectives.
pub open spec fn builtin_adjectives() -> Seq<Seq<char>> {
    seq![
        "able"@,
        "ancient"@,
        "bold"@,
        "brave"@,
        "bright"@,
        "calm"@,
        "clever"@,
        "cosmic"@,
        "curious"@,
        "dapper"@,
        "delirious"@,
        "eager"@,
        "fancy"@,
        "gentle"@,
        "happy"@,
        "humble"@,
        "imaginary"@,
        "jolly"@,
        "kind"@,
        "lively"@,
        "lucky"@,
        "merry"@,
        "mighty"@,
        "nimble"@,
        "proud"@,
        "pushy"@,
        "quiet"@,
        "rapid"@,
        "rusty"@,
        "shiny"@,
        "swift"@,
        "witty"@,
    ]
}

/// The built-in nouns.
pub open spec fn builtin_nouns() -> Seq<Seq<char>> {
    seq![
        "anchor"@,
        "apple"@,
        "badge"@,
        "bell"@,
        "breeze"@,
        "candle"@,
        "cloud"@,
        "comet"@,
        "desk"@,
        "engine"@,
        "feather"@,
        "garden"@,
        "harbor"@,
        "island"@,
        "kettle"@,
        "lantern"@,
        "meadow"@,
        "nail"@,
        "orbit"@,
        "pail"@,
        "pencil"@,
        "pebble"@,
        "river"@,
        "roll"@,
        "rocket"@,
        "saddle"@,
        "shell"@,
        "thunder"@,
        "tower"@,
        "violin"@,
        "wagon"@,
        "whistle"@,
    ]
}

/// The built-in adjectives, in order.
pub fn adjectives() -> (r: Vec<String>)
    ensures
        views_of(r@) == builtin_adjectives(),
{
    let mut v: Vec<String> = Vec::new();
    v.push(String::from_str("able"));
    v.push(String::from_str("ancient"));
    v.push(String::from_str("bold"));
    v.push(String::from_str("brave"));
    v.push(String::from_str("bright"));
    v.push(String::from_str("calm"));
    v.push(String::from_str("clever"));
    v.push(String::from_str("cosmic"));
    v.push(String::from_str("curious"));
    v.push(String::from_str("dapper"));
    v.push(String::from_str("delirious"));
    v.push(String::from_str("eager"));
    v.push(String::from_str("fancy"));
    v.push(String::from_str("gentle"));
    v.push(String::from_str("happy"));
    v.push(String::from_str("humble"));
    v.push(String::from_str("imaginary"));
    v.push(String::from_str("jolly"));
    v.push(String::from_str("kind"));
    v.push(String::from_str("lively"));
    v.push(String::from_str("lucky"));
    v.push(String::from_str("merry"));
    v.push(String::from_str("mighty"));
    v.push(String::from_str("nimble"));
    v.push(String::from_str("proud"));
    v.push(String::from_str("pushy"));
    v.push(String::from_str("quiet"));
    v.push(String::from_str("rapid"));
    v.push(String::from_str("rusty"));
    v.push(String::from_str("shiny"));
    v.push(String::from_str("swift"));
    v.push(String::from_str("witty"));
    assert(views_of(v@) =~= builtin_adjectives());
    v
}

/// The built-in nouns, in order.
pub fn nouns() -> (r: Vec<String>)
    ensures
        views_of(r@) == builtin_nouns(),
{
    let mut v: Vec<String> = Vec::new();
    v.push(String::from_str("anchor"));
    v.push(String::from_str("apple"));
    v.push(String::from_str("badge"));
    v.push(String::from_str("bell"));
    v.push(String::from_str("breeze"));
    v.push(String::from_str("candle"));
    v.push(String::from_str("cloud"));
    v.push(String::from_str("comet"));
    v.push(String::from_str("desk"));
    v.push(String::from_str("engine"));
    v.push(String::from_str("feather"));
    v.push(String::from_str("garden"));
    v.push(String::from_str("harbor"));
    v.push(String::from_str("island"));
    v.push(String::from_str("kettle"));
    v.push(String::from_str("lantern"));
    v.push(String::from_str("meadow"));
    v.push(String::from_str("nail"));
    v.push(String::from_str("orbit"));
    v.push(String::from_str("pail"));
    v.push(String::from_str("pencil"));
    v.push(String::from_str("pebble"));
    v.push(String::from_str("river"));
    v.push(String::from_str("roll"));
    v.push(String::from_str("rocket"));
    v.push(String::from_str("saddle"));
    v.push(String::from_str("shell"));
    v.push(String::from_str("thunder"));
    v.push(String::from_str("tower"));
    v.push(String::from_str("violin"));
    v.push(String::from_str("wagon"));
    v.push(String::from_str("whistle"));
    assert(views_of(v@) =~= builtin_nouns());
    v
}

} // verus!
