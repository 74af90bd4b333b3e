//! The targets that can be built for, and those built for when none is chosen.

use vstd::prelude::*;
use vstd::string::*;
use crate::detail::lemma_parsable;
use crate::target::{resolvable, target_of};
use crate::workflow::config_of;

verus! {

/// The supported triples, in the order in which they are offered.
pub const AVAILABLE_TARGETS: [&'static str; 13] = [
    "aarch64-apple-darwin",
    "aarch64-linux-android",
    "aarch64-unknown-linux-gnu",
    "aarch64-unknown-linux-musl",
    "aarch64-pc-windows-msvc",
    "x86_64-apple-darwin",
    "x86_64-pc-windows-msvc",
    "x86_64-unknown-linux-gnu",
    "x86_64-unknown-linux-musl",
    "x86_64-unknown-freebsd",
    "i686-pc-windows-msvc",
    "armv7-unknown-linux-gnueabihf",
    "armv7-linux-androideabi",
];

/// The triples built for when none is chosen.
pub const DEFAULT_TARGETS: [&'static str; 3] = [
    "x86_64-apple-darwin",
    "x86_64-pc-windows-msvc",
    "x86_64-unknown-linux-gnu",
];

/// The views of a sequence of string slices, in order.
pub open spec fn slices(v: Seq<&'static str>) -> Seq<Seq<char>> {
    v.map_values(|s: &'static str| s@)
}

/// The supported triples, as texts.
pub open spec fn available() -> Seq<Seq<char>> {
    slices(AVAILABLE_TARGETS@)
}

/// The default triples, as texts.
pub open spec fn defaults() -> Seq<Seq<char>> {
    slices(DEFAULT_TARGETS@)
}

/// The supported triples are these thirteen.
pub proof fn lemma_available()
    ensures
        available() == seq![
            "aarch64-apple-darwin"@,
            "aarch64-linux-android"@,
            "aarch64-unknown-linux-gnu"@,
            "aarch64-unknown-linux-musl"@,
            "aarch64-pc-windows-msvc"@,
            "x86_64-apple-darwin"@,
            "x86_64-pc-windows-msvc"@,
            "x86_64-unknown-linux-gnu"@,
            "x86_64-unknown-linux-musl"@,
            "x86_64-unknown-freebsd"@,
            "i686-pc-windows-msvc"@,
            "armv7-unknown-linux-gnueabihf"@,
            "armv7-linux-androideabi"@,
        ],
{
    assert(available() =~= seq![
        "aarch64-apple-darwin"@,
        "aarch64-linux-android"@,
        "aarch64-unknown-linux-gnu"@,
        "aarch64-unknown-linux-musl"@,
        "aarch64-pc-windows-msvc"@,
        "x86_64-apple-darwin"@,
        "x86_64-pc-windows-msvc"@,
        "x86_64-unknown-linux-gnu"@,
        "x86_64-unknown-linux-musl"@,
        "x86_64-unknown-freebsd"@,
        "i686-pc-windows-msvc"@,
        "armv7-unknown-linux-gnueabihf"@,
        "armv7-linux-androideabi"@,
    ]);
}

/// The default triples are these three.
pub proof fn lemma_defaults()
    ensures
        defaults() == seq![
            "x86_64-apple-darwin"@,
            "x86_64-pc-windows-msvc"@,
            "x86_64-unknown-linux-gnu"@,
        ],
{
    assert(defaults() =~= seq![
        "x86_64-apple-darwin"@,
        "x86_64-pc-windows-msvc"@,
        "x86_64-unknown-linux-gnu"@,
    ]);
}

/// Every supported triple has a configuration in the table.
pub proof fn lemma_available_configured(i: int)
    requires
        0 <= i < available().len(),
    ensures
        config_of(available()[i]) is Some,
{
    lemma_available();
}

/// The table of configurations holds the supported triples and no others.
pub proof fn lemma_configured_iff_available(triple: Seq<char>)
    ensures
        config_of(triple) is Some <==> available().contains(triple),
{
    lemma_available();
    if available().contains(triple) {
        let i = choose|i: int| 0 <= i < available().len() && available()[i] == triple;
        lemma_available_configured(i);
    }
    if triple == "aarch64-apple-darwin"@ {
        assert(available()[0] == triple);
    }
    if triple == "aarch64-linux-android"@ {
        assert(available()[1] == triple);
    }
    if triple == "aarch64-unknown-linux-gnu"@ {
        assert(available()[2] == triple);
    }
    if triple == "aarch64-unknown-linux-musl"@ {
        assert(available()[3] == triple);
    }
    if triple == "aarch64-pc-windows-msvc"@ {
        assert(available()[4] == triple);
    }
    if triple == "x86_64-apple-darwin"@ {
        assert(available()[5] == triple);
    }
    if triple == "x86_64-pc-windows-msvc"@ {
        assert(available()[6] == triple);
    }
    if triple == "x86_64-unknown-linux-gnu"@ {
        assert(available()[7] == triple);
    }
    if triple == "x86_64-unknown-linux-musl"@ {
        assert(available()[8] == triple);
    }
    if triple == "x86_64-unknown-freebsd"@ {
        assert(available()[9] == triple);
    }
    if triple == "i686-pc-windows-msvc"@ {
        assert(available()[10] == triple);
    }
    if triple == "armv7-unknown-linux-gnueabihf"@ {
        assert(available()[11] == triple);
    }
    if triple == "armv7-linux-androideabi"@ {
        assert(available()[12] == triple);
    }
}

/// Every supported triple can be resolved, and the target it resolves to
/// carries the triple unchanged.
pub proof fn lemma_available_resolvable(i: int)
    requires
        0 <= i < available().len(),
    ensures
        resolvable(available()[i]),
        target_of(available()[i]).triple == available()[i],
{
    lemma_available();
    lemma_available_configured(i);
    if i == 0 {
        let t = "aarch64-apple-darwin"@;
        reveal_strlit("aarch64-apple-darwin");
        reveal_strlit("aarch64");
        assert(t.subrange(0, 7) =~= "aarch64"@);
        lemma_parsable(t, 7, 13);
    } else if i == 1 {
        let t = "aarch64-linux-android"@;
        reveal_strlit("aarch64-linux-android");
        reveal_strlit("aarch64");
        assert(t.subrange(0, 7) =~= "aarch64"@);
        lemma_parsable(t, 7, 13);
    } else if i == 2 {
        let t = "aarch64-unknown-linux-gnu"@;
        reveal_strlit("aarch64-unknown-linux-gnu");
        reveal_strlit("aarch64");
        assert(t.subrange(0, 7) =~= "aarch64"@);
        lemma_parsable(t, 7, 15);
    } else if i == 3 {
        let t = "aarch64-unknown-linux-musl"@;
        reveal_strlit("aarch64-unknown-linux-musl");
        reveal_strlit("aarch64");
        assert(t.subrange(0, 7) =~= "aarch64"@);
        lemma_parsable(t, 7, 15);
    } else if i == 4 {
        let t = "aarch64-pc-windows-msvc"@;
        reveal_strlit("aarch64-pc-windows-msvc");
        reveal_strlit("aarch64");
        assert(t.subrange(0, 7) =~= "aarch64"@);
        lemma_parsable(t, 7, 10);
    } else if i == 5 {
        let t = "x86_64-apple-darwin"@;
        reveal_strlit("x86_64-apple-darwin");
        reveal_strlit("x86_64");
        assert(t.subrange(0, 6) =~= "x86_64"@);
        lemma_parsable(t, 6, 12);
    } else if i == 6 {
        let t = "x86_64-pc-windows-msvc"@;
        reveal_strlit("x86_64-pc-windows-msvc");
        reveal_strlit("x86_64");
        assert(t.subrange(0, 6) =~= "x86_64"@);
        lemma_parsable(t, 6, 9);
    } else if i == 7 {
        let t = "x86_64-unknown-linux-gnu"@;
        reveal_strlit("x86_64-unknown-linux-gnu");
        reveal_strlit("x86_64");
        assert(t.subrange(0, 6) =~= "x86_64"@);
        lemma_parsable(t, 6, 14);
    } else if i == 8 {
        let t = "x86_64-unknown-linux-musl"@;
        reveal_strlit("x86_64-unknown-linux-musl");
        reveal_strlit("x86_64");
        assert(t.subrange(0, 6) =~= "x86_64"@);
        lemma_parsable(t, 6, 14);
    } else if i == 9 {
        let t = "x86_64-unknown-freebsd"@;
        reveal_strlit("x86_64-unknown-freebsd");
        reveal_strlit("x86_64");
        assert(t.subrange(0, 6) =~= "x86_64"@);
        lemma_parsable(t, 6, 14);
    } else if i == 10 {
        let t = "i686-pc-windows-msvc"@;
        reveal_strlit("i686-pc-windows-msvc");
        reveal_strlit("i686");
        assert(t.subrange(0, 4) =~= "i686"@);
        lemma_parsable(t, 4, 7);
    } else if i == 11 {
        let t = "armv7-unknown-linux-gnueabihf"@;
        reveal_strlit("armv7-unknown-linux-gnueabihf");
        reveal_strlit("armv7");
        assert(t.subrange(0, 5) =~= "armv7"@);
        lemma_parsable(t, 5, 13);
    } else if i == 12 {
        let t = "armv7-linux-androideabi"@;
        reveal_strlit("armv7-linux-androideabi");
        reveal_strlit("armv7");
        assert(t.subrange(0, 5) =~= "armv7"@);
        lemma_parsable(t, 5, 11);
    }
}

/// Every default triple is a supported one, and some supported triple is no
/// default.
pub proof fn lemma_defaults_strictly_within()
    ensures
        forall|i: int| 0 <= i < defaults().len() ==> available().contains(#[trigger] defaults()[i]),
        exists|j: int| 0 <= j < available().len() && !defaults().contains(#[trigger] available()[j]),
{
    lemma_available();
    lemma_defaults();
    assert(available()[5] == defaults()[0]);
    assert(available()[6] == defaults()[1]);
    assert(available()[7] == defaults()[2]);
    reveal_strlit("aarch64-apple-darwin");
    reveal_strlit("x86_64-apple-darwin");
    reveal_strlit("x86_64-pc-windows-msvc");
    reveal_strlit("x86_64-unknown-linux-gnu");
    let t = available()[0];
    assert(t[0] == 'a');
    assert(defaults()[0][0] == 'x');
    assert(defaults()[1][0] == 'x');
    assert(defaults()[2][0] == 'x');
    assert(!defaults().contains(t));
}

} // verus!
