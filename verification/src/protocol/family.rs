use vstd::prelude::*;
use vstd::string::{StrSliceExecFns, StringExecFns};

verus! {

/// Device family selector for opening a connection.
#[derive(Debug, Clone, Copy, PartialEq, Eq, Structural)]
pub enum DeviceFamily {
    /// UT61E+, UT61B+, UT61D+, UT161B, UT161D, UT161E
    Ut61EPlus,
    /// UT8803 / UT8803E bench multimeter
    Ut8803,
    /// UT171A / UT171B / UT171C
    Ut171,
    /// UT181A
    Ut181a,
}

/// ASCII lower-casing of one character; other characters are unchanged.
pub open spec fn ascii_lower(c: char) -> char {
    if 'A' <= c && c <= 'Z' {
        (((c as u8) + 32) as u8) as char
    } else {
        c
    }
}

/// ASCII lower-casing of a text.
pub open spec fn lowered(s: Seq<char>) -> Seq<char> {
    s.map_values(|c: char| ascii_lower(c))
}

/// The family that a lower-case name selects, if any.
pub open spec fn family_named(name: Seq<char>) -> Option<DeviceFamily> {
    if name == "ut61eplus"@ || name == "ut61e+"@ || name == "ut61e"@ || name == "ut61bplus"@ || name == "ut61b+"@ || name == "ut61b"@ || name == "ut61dplus"@ || name == "ut61d+"@ || name == "ut61d"@ || name == "ut161b"@ || name == "ut161d"@ || name == "ut161e"@ || name == "ut161"@ {
        Some(DeviceFamily::Ut61EPlus)
    } else if name == "ut8803"@ || name == "ut8803e"@ {
        Some(DeviceFamily::Ut8803)
    } else if name == "ut171"@ || name == "ut171a"@ || name == "ut171b"@ || name == "ut171c"@ {
        Some(DeviceFamily::Ut171)
    } else if name == "ut181a"@ || name == "ut181"@ {
        Some(DeviceFamily::Ut181a)
    } else {
        None
    }
}

/// The message for a name that selects no family.
pub open spec fn unknown_family_message(s: Seq<char>) -> Seq<char> {
    "unknown device family: "@ + s
}

/// One character, ASCII lower-cased.
fn lower_char(c: char) -> (r: char)
    ensures
        r == ascii_lower(c),
{
    if 'A' <= c && c <= 'Z' {
        ((c as u8) + 32) as char
    } else {
        c
    }
}

/// Whether `s`, ASCII lower-cased, is `name`.
fn is_named(s: &str, name: &str) -> (r: bool)
    ensures
        r == (lowered(s@) == name@),
{
    let n = s.unicode_len();
    if n != name.unicode_len() {
        assert(lowered(s@).len() != name@.len());
        return false;
    }
    let mut k: usize = 0;
    while k < n
        invariant
            n == s@.len(),
            n == name@.len(),
            k <= n,
            forall|j: int| 0 <= j < k ==> lowered(s@)[j] == name@[j],
        decreases n - k,
    {
        if lower_char(s.get_char(k)) != name.get_char(k) {
            return false;
        }
        k = k + 1;
    }
    assert(lowered(s@) =~= name@);
    true
}

impl DeviceFamily {
    /// The canonical name of the family.
    pub open spec fn name(self) -> Seq<char> {
        match self {
            DeviceFamily::Ut61EPlus => "ut61eplus"@,
            DeviceFamily::Ut8803 => "ut8803"@,
            DeviceFamily::Ut171 => "ut171"@,
            DeviceFamily::Ut181a => "ut181a"@,
        }
    }

    /// The canonical name of the family (e.g. "ut61eplus").
    pub fn to_string(&self) -> (s: String)
        ensures
            s@ == self.name(),
    {
        match self {
            DeviceFamily::Ut61EPlus => String::from_str("ut61eplus"),
            DeviceFamily::Ut8803 => String::from_str("ut8803"),
            DeviceFamily::Ut171 => String::from_str("ut171"),
            DeviceFamily::Ut181a => String::from_str("ut181a"),
        }
    }

    /// Select a family by one of its model names, ignoring ASCII case.
    /// Unknown names give the message "unknown device family: <name>".
    pub fn parse(s: &str) -> (r: Result<DeviceFamily, String>)
        ensures
            match r {
                Ok(f) => family_named(lowered(s@)) == Some(f),
                Err(msg) => family_named(lowered(s@)) is None && msg@ == unknown_family_message(s@),
            },
    {
        if is_named(s, "ut61eplus") || is_named(s, "ut61e+") || is_named(s, "ut61e") || is_named(s, "ut61bplus") || is_named(s, "ut61b+") || is_named(s, "ut61b") || is_named(s, "ut61dplus") || is_named(s, "ut61d+") || is_named(s, "ut61d") || is_named(s, "ut161b") || is_named(s, "ut161d") || is_named(s, "ut161e") || is_named(s, "ut161") {
            Ok(DeviceFamily::Ut61EPlus)
        } else if is_named(s, "ut8803") || is_named(s, "ut8803e") {
            Ok(DeviceFamily::Ut8803)
        } else if is_named(s, "ut171") || is_named(s, "ut171a") || is_named(s, "ut171b") || is_named(s, "ut171c") {
            Ok(DeviceFamily::Ut171)
        } else if is_named(s, "ut181a") || is_named(s, "ut181") {
            Ok(DeviceFamily::Ut181a)
        } else {
            Err(String::from_str("unknown device family: ").concat(s))
        }
    }
}

impl std::str::FromStr for DeviceFamily {
    type Err = String;

    fn from_str(s: &str) -> (r: std::result::Result<Self, Self::Err>)
        ensures
            match r {
                Ok(f) => family_named(lowered(s@)) == Some(f),
                Err(msg) => family_named(lowered(s@)) is None && msg@ == unknown_family_message(s@),
            },
    {
        DeviceFamily::parse(s)
    }
}

/// Every model name the selector knows, with the family it selects.
pub open spec fn family_aliases() -> Seq<(Seq<char>, DeviceFamily)> {
    seq![
        ("ut61eplus"@, DeviceFamily::Ut61EPlus),
        ("ut61e+"@, DeviceFamily::Ut61EPlus),
        ("ut61e"@, DeviceFamily::Ut61EPlus),
        ("ut61bplus"@, DeviceFamily::Ut61EPlus),
        ("ut61b+"@, DeviceFamily::Ut61EPlus),
        ("ut61b"@, DeviceFamily::Ut61EPlus),
        ("ut61dplus"@, DeviceFamily::Ut61EPlus),
        ("ut61d+"@, DeviceFamily::Ut61EPlus),
        ("ut61d"@, DeviceFamily::Ut61EPlus),
        ("ut161b"@, DeviceFamily::Ut61EPlus),
        ("ut161d"@, DeviceFamily::Ut61EPlus),
        ("ut161e"@, DeviceFamily::Ut61EPlus),
        ("ut161"@, DeviceFamily::Ut61EPlus),
        ("ut8803"@, DeviceFamily::Ut8803),
        ("ut8803e"@, DeviceFamily::Ut8803),
        ("ut171"@, DeviceFamily::Ut171),
        ("ut171a"@, DeviceFamily::Ut171),
        ("ut171b"@, DeviceFamily::Ut171),
        ("ut171c"@, DeviceFamily::Ut171),
        ("ut181a"@, DeviceFamily::Ut181a),
        ("ut181"@, DeviceFamily::Ut181a),
    ]
}

/// Each model name in [`family_aliases`] selects its own family; since
/// `parse` compares the input ASCII-lower-cased, so does that name in any
/// ASCII case.
pub proof fn lemma_family_aliases(i: int)
    requires
        0 <= i < family_aliases().len(),
    ensures
        family_named(family_aliases()[i].0) == Some(family_aliases()[i].1),
{
    if i == 0 {
        assert(family_aliases()[i] == ("ut61eplus"@, DeviceFamily::Ut61EPlus));
        assert(family_named("ut61eplus"@) == Some(DeviceFamily::Ut61EPlus)) by {
        reveal_strlit("ut61eplus");
        }
    } else if i == 1 {
        assert(family_aliases()[i] == ("ut61e+"@, DeviceFamily::Ut61EPlus));
        assert(family_named("ut61e+"@) == Some(DeviceFamily::Ut61EPlus)) by {
        reveal_strlit("ut61e+");
        }
    } else if i == 2 {
        assert(family_aliases()[i] == ("ut61e"@, DeviceFamily::Ut61EPlus));
        assert(family_named("ut61e"@) == Some(DeviceFamily::Ut61EPlus)) by {
        reveal_strlit("ut61e");
        }
    } else if i == 3 {
        assert(family_aliases()[i] == ("ut61bplus"@, DeviceFamily::Ut61EPlus));
        assert(family_named("ut61bplus"@) == Some(DeviceFamily::Ut61EPlus)) by {
        reveal_strlit("ut61bplus");
        }
    } else if i == 4 {
        assert(family_aliases()[i] == ("ut61b+"@, DeviceFamily::Ut61EPlus));
        assert(family_named("ut61b+"@) == Some(DeviceFamily::Ut61EPlus)) by {
        reveal_strlit("ut61b+");
        }
    } else if i == 5 {
        assert(family_aliases()[i] == ("ut61b"@, DeviceFamily::Ut61EPlus));
        assert(family_named("ut61b"@) == Some(DeviceFamily::Ut61EPlus)) by {
        reveal_strlit("ut61b");
        }
    } else if i == 6 {
        assert(family_aliases()[i] == ("ut61dplus"@, DeviceFamily::Ut61EPlus));
        assert(family_named("ut61dplus"@) == Some(DeviceFamily::Ut61EPlus)) by {
        reveal_strlit("ut61dplus");
        }
    } else if i == 7 {
        assert(family_aliases()[i] == ("ut61d+"@, DeviceFamily::Ut61EPlus));
        assert(family_named("ut61d+"@) == Some(DeviceFamily::Ut61EPlus)) by {
        reveal_strlit("ut61d+");
        }
    } else if i == 8 {
        assert(family_aliases()[i] == ("ut61d"@, DeviceFamily::Ut61EPlus));
        assert(family_named("ut61d"@) == Some(DeviceFamily::Ut61EPlus)) by {
        reveal_strlit("ut61d");
        }
    } else if i == 9 {
        assert(family_aliases()[i] == ("ut161b"@, DeviceFamily::Ut61EPlus));
        assert(family_named("ut161b"@) == Some(DeviceFamily::Ut61EPlus)) by {
        reveal_strlit("ut161b");
        }
    } else if i == 10 {
        assert(family_aliases()[i] == ("ut161d"@, DeviceFamily::Ut61EPlus));
        assert(family_named("ut161d"@) == Some(DeviceFamily::Ut61EPlus)) by {
        reveal_strlit("ut161d");
        }
    } else if i == 11 {
        assert(family_aliases()[i] == ("ut161e"@, DeviceFamily::Ut61EPlus));
        assert(family_named("ut161e"@) == Some(DeviceFamily::Ut61EPlus)) by {
        reveal_strlit("ut161e");
        }
    } else if i == 12 {
        assert(family_aliases()[i] == ("ut161"@, DeviceFamily::Ut61EPlus));
        assert(family_named("ut161"@) == Some(DeviceFamily::Ut61EPlus)) by {
        reveal_strlit("ut161");
        }
    } else if i == 13 {
        assert(family_aliases()[i] == ("ut8803"@, DeviceFamily::Ut8803));
        assert(family_named("ut8803"@) == Some(DeviceFamily::Ut8803)) by {
        reveal_strlit("ut8803");
        reveal_strlit("ut61eplus");
        assert("ut8803"@ != "ut61eplus"@) by { assert("ut8803"@.len() != "ut61eplus"@.len()); }
        reveal_strlit("ut61e+");
        assert("ut8803"@[2] != "ut61e+"@[2]);
        reveal_strlit("ut61e");
        assert("ut8803"@ != "ut61e"@) by { assert("ut8803"@.len() != "ut61e"@.len()); }
        reveal_strlit("ut61bplus");
        assert("ut8803"@ != "ut61bplus"@) by { assert("ut8803"@.len() != "ut61bplus"@.len()); }
        reveal_strlit("ut61b+");
        assert("ut8803"@[2] != "ut61b+"@[2]);
        reveal_strlit("ut61b");
        assert("ut8803"@ != "ut61b"@) by { assert("ut8803"@.len() != "ut61b"@.len()); }
        reveal_strlit("ut61dplus");
        assert("ut8803"@ != "ut61dplus"@) by { assert("ut8803"@.len() != "ut61dplus"@.len()); }
        reveal_strlit("ut61d+");
        assert("ut8803"@[2] != "ut61d+"@[2]);
        reveal_strlit("ut61d");
        assert("ut8803"@ != "ut61d"@) by { assert("ut8803"@.len() != "ut61d"@.len()); }
        reveal_strlit("ut161b");
        assert("ut8803"@[2] != "ut161b"@[2]);
        reveal_strlit("ut161d");
        assert("ut8803"@[2] != "ut161d"@[2]);
        reveal_strlit("ut161e");
        assert("ut8803"@[2] != "ut161e"@[2]);
        reveal_strlit("ut161");
        assert("ut8803"@ != "ut161"@) by { assert("ut8803"@.len() != "ut161"@.len()); }
        }
    } else if i == 14 {
        assert(family_aliases()[i] == ("ut8803e"@, DeviceFamily::Ut8803));
        assert(family_named("ut8803e"@) == Some(DeviceFamily::Ut8803)) by {
        reveal_strlit("ut8803e");
        reveal_strlit("ut61eplus");
        assert("ut8803e"@ != "ut61eplus"@) by { assert("ut8803e"@.len() != "ut61eplus"@.len()); }
        reveal_strlit("ut61e+");
        assert("ut8803e"@ != "ut61e+"@) by { assert("ut8803e"@.len() != "ut61e+"@.len()); }
        reveal_strlit("ut61e");
        assert("ut8803e"@ != "ut61e"@) by { assert("ut8803e"@.len() != "ut61e"@.len()); }
        reveal_strlit("ut61bplus");
        assert("ut8803e"@ != "ut61bplus"@) by { assert("ut8803e"@.len() != "ut61bplus"@.len()); }
        reveal_strlit("ut61b+");
        assert("ut8803e"@ != "ut61b+"@) by { assert("ut8803e"@.len() != "ut61b+"@.len()); }
        reveal_strlit("ut61b");
        assert("ut8803e"@ != "ut61b"@) by { assert("ut8803e"@.len() != "ut61b"@.len()); }
        reveal_strlit("ut61dplus");
        assert("ut8803e"@ != "ut61dplus"@) by { assert("ut8803e"@.len() != "ut61dplus"@.len()); }
        reveal_strlit("ut61d+");
        assert("ut8803e"@ != "ut61d+"@) by { assert("ut8803e"@.len() != "ut61d+"@.len()); }
        reveal_strlit("ut61d");
        assert("ut8803e"@ != "ut61d"@) by { assert("ut8803e"@.len() != "ut61d"@.len()); }
        reveal_strlit("ut161b");
        assert("ut8803e"@ != "ut161b"@) by { assert("ut8803e"@.len() != "ut161b"@.len()); }
        reveal_strlit("ut161d");
        assert("ut8803e"@ != "ut161d"@) by { assert("ut8803e"@.len() != "ut161d"@.len()); }
        reveal_strlit("ut161e");
        assert("ut8803e"@ != "ut161e"@) by { assert("ut8803e"@.len() != "ut161e"@.len()); }
        reveal_strlit("ut161");
        assert("ut8803e"@ != "ut161"@) by { assert("ut8803e"@.len() != "ut161"@.len()); }
        }
    } else if i == 15 {
        assert(family_aliases()[i] == ("ut171"@, DeviceFamily::Ut171));
        assert(family_named("ut171"@) == Some(DeviceFamily::Ut171)) by {
        reveal_strlit("ut171");
        reveal_strlit("ut61eplus");
        assert("ut171"@ != "ut61eplus"@) by { assert("ut171"@.len() != "ut61eplus"@.len()); }
        reveal_strlit("ut61e+");
        assert("ut171"@ != "ut61e+"@) by { assert("ut171"@.len() != "ut61e+"@.len()); }
        reveal_strlit("ut61e");
        assert("ut171"@[2] != "ut61e"@[2]);
        reveal_strlit("ut61bplus");
        assert("ut171"@ != "ut61bplus"@) by { assert("ut171"@.len() != "ut61bplus"@.len()); }
        reveal_strlit("ut61b+");
        assert("ut171"@ != "ut61b+"@) by { assert("ut171"@.len() != "ut61b+"@.len()); }
        reveal_strlit("ut61b");
        assert("ut171"@[2] != "ut61b"@[2]);
        reveal_strlit("ut61dplus");
        assert("ut171"@ != "ut61dplus"@) by { assert("ut171"@.len() != "ut61dplus"@.len()); }
        reveal_strlit("ut61d+");
        assert("ut171"@ != "ut61d+"@) by { assert("ut171"@.len() != "ut61d+"@.len()); }
        reveal_strlit("ut61d");
        assert("ut171"@[2] != "ut61d"@[2]);
        reveal_strlit("ut161b");
        assert("ut171"@ != "ut161b"@) by { assert("ut171"@.len() != "ut161b"@.len()); }
        reveal_strlit("ut161d");
        assert("ut171"@ != "ut161d"@) by { assert("ut171"@.len() != "ut161d"@.len()); }
        reveal_strlit("ut161e");
        assert("ut171"@ != "ut161e"@) by { assert("ut171"@.len() != "ut161e"@.len()); }
        reveal_strlit("ut161");
        assert("ut171"@[3] != "ut161"@[3]);
        reveal_strlit("ut8803");
        assert("ut171"@ != "ut8803"@) by { assert("ut171"@.len() != "ut8803"@.len()); }
        reveal_strlit("ut8803e");
        assert("ut171"@ != "ut8803e"@) by { assert("ut171"@.len() != "ut8803e"@.len()); }
        }
    } else if i == 16 {
        assert(family_aliases()[i] == ("ut171a"@, DeviceFamily::Ut171));
        assert(family_named("ut171a"@) == Some(DeviceFamily::Ut171)) by {
        reveal_strlit("ut171a");
        reveal_strlit("ut61eplus");
        assert("ut171a"@ != "ut61eplus"@) by { assert("ut171a"@.len() != "ut61eplus"@.len()); }
        reveal_strlit("ut61e+");
        assert("ut171a"@[2] != "ut61e+"@[2]);
        reveal_strlit("ut61e");
        assert("ut171a"@ != "ut61e"@) by { assert("ut171a"@.len() != "ut61e"@.len()); }
        reveal_strlit("ut61bplus");
        assert("ut171a"@ != "ut61bplus"@) by { assert("ut171a"@.len() != "ut61bplus"@.len()); }
        reveal_strlit("ut61b+");
        assert("ut171a"@[2] != "ut61b+"@[2]);
        reveal_strlit("ut61b");
        assert("ut171a"@ != "ut61b"@) by { assert("ut171a"@.len() != "ut61b"@.len()); }
        reveal_strlit("ut61dplus");
        assert("ut171a"@ != "ut61dplus"@) by { assert("ut171a"@.len() != "ut61dplus"@.len()); }
        reveal_strlit("ut61d+");
        assert("ut171a"@[2] != "ut61d+"@[2]);
        reveal_strlit("ut61d");
        assert("ut171a"@ != "ut61d"@) by { assert("ut171a"@.len() != "ut61d"@.len()); }
        reveal_strlit("ut161b");
        assert("ut171a"@[3] != "ut161b"@[3]);
        reveal_strlit("ut161d");
        assert("ut171a"@[3] != "ut161d"@[3]);
        reveal_strlit("ut161e");
        assert("ut171a"@[3] != "ut161e"@[3]);
        reveal_strlit("ut161");
        assert("ut171a"@ != "ut161"@) by { assert("ut171a"@.len() != "ut161"@.len()); }
        reveal_strlit("ut8803");
        assert("ut171a"@[2] != "ut8803"@[2]);
        reveal_strlit("ut8803e");
        assert("ut171a"@ != "ut8803e"@) by { assert("ut171a"@.len() != "ut8803e"@.len()); }
        }
    } else if i == 17 {
        assert(family_aliases()[i] == ("ut171b"@, DeviceFamily::Ut171));
        assert(family_named("ut171b"@) == Some(DeviceFamily::Ut171)) by {
        reveal_strlit("ut171b");
        reveal_strlit("ut61eplus");
        assert("ut171b"@ != "ut61eplus"@) by { assert("ut171b"@.len() != "ut61eplus"@.len()); }
        reveal_strlit("ut61e+");
        assert("ut171b"@[2] != "ut61e+"@[2]);
        reveal_strlit("ut61e");
        assert("ut171b"@ != "ut61e"@) by { assert("ut171b"@.len() != "ut61e"@.len()); }
        reveal_strlit("ut61bplus");
        assert("ut171b"@ != "ut61bplus"@) by { assert("ut171b"@.len() != "ut61bplus"@.len()); }
        reveal_strlit("ut61b+");
        assert("ut171b"@[2] != "ut61b+"@[2]);
        reveal_strlit("ut61b");
        assert("ut171b"@ != "ut61b"@) by { assert("ut171b"@.len() != "ut61b"@.len()); }
        reveal_strlit("ut61dplus");
        assert("ut171b"@ != "ut61dplus"@) by { assert("ut171b"@.len() != "ut61dplus"@.len()); }
        reveal_strlit("ut61d+");
        assert("ut171b"@[2] != "ut61d+"@[2]);
        reveal_strlit("ut61d");
        assert("ut171b"@ != "ut61d"@) by { assert("ut171b"@.len() != "ut61d"@.len()); }
        reveal_strlit("ut161b");
        assert("ut171b"@[3] != "ut161b"@[3]);
        reveal_strlit("ut161d");
        assert("ut171b"@[3] != "ut161d"@[3]);
        reveal_strlit("ut161e");
        assert("ut171b"@[3] != "ut161e"@[3]);
        reveal_strlit("ut161");
        assert("ut171b"@ != "ut161"@) by { assert("ut171b"@.len() != "ut161"@.len()); }
        reveal_strlit("ut8803");
        assert("ut171b"@[2] != "ut8803"@[2]);
        reveal_strlit("ut8803e");
        assert("ut171b"@ != "ut8803e"@) by { assert("ut171b"@.len() != "ut8803e"@.len()); }
        }
    } else if i == 18 {
        assert(family_aliases()[i] == ("ut171c"@, DeviceFamily::Ut171));
        assert(family_named("ut171c"@) == Some(DeviceFamily::Ut171)) by {
        reveal_strlit("ut171c");
        reveal_strlit("ut61eplus");
        assert("ut171c"@ != "ut61eplus"@) by { assert("ut171c"@.len() != "ut61eplus"@.len()); }
        reveal_strlit("ut61e+");
        assert("ut171c"@[2] != "ut61e+"@[2]);
        reveal_strlit("ut61e");
        assert("ut171c"@ != "ut61e"@) by { assert("ut171c"@.len() != "ut61e"@.len()); }
        reveal_strlit("ut61bplus");
        assert("ut171c"@ != "ut61bplus"@) by { assert("ut171c"@.len() != "ut61bplus"@.len()); }
        reveal_strlit("ut61b+");
        assert("ut171c"@[2] != "ut61b+"@[2]);
        reveal_strlit("ut61b");
        assert("ut171c"@ != "ut61b"@) by { assert("ut171c"@.len() != "ut61b"@.len()); }
        reveal_strlit("ut61dplus");
        assert("ut171c"@ != "ut61dplus"@) by { assert("ut171c"@.len() != "ut61dplus"@.len()); }
        reveal_strlit("ut61d+");
        assert("ut171c"@[2] != "ut61d+"@[2]);
        reveal_strlit("ut61d");
        assert("ut171c"@ != "ut61d"@) by { assert("ut171c"@.len() != "ut61d"@.len()); }
        reveal_strlit("ut161b");
        assert("ut171c"@[3] != "ut161b"@[3]);
        reveal_strlit("ut161d");
        assert("ut171c"@[3] != "ut161d"@[3]);
        reveal_strlit("ut161e");
        assert("ut171c"@[3] != "ut161e"@[3]);
        reveal_strlit("ut161");
        assert("ut171c"@ != "ut161"@) by { assert("ut171c"@.len() != "ut161"@.len()); }
        reveal_strlit("ut8803");
        assert("ut171c"@[2] != "ut8803"@[2]);
        reveal_strlit("ut8803e");
        assert("ut171c"@ != "ut8803e"@) by { assert("ut171c"@.len() != "ut8803e"@.len()); }
        }
    } else if i == 19 {
        assert(family_aliases()[i] == ("ut181a"@, DeviceFamily::Ut181a));
        assert(family_named("ut181a"@) == Some(DeviceFamily::Ut181a)) by {
        reveal_strlit("ut181a");
        reveal_strlit("ut61eplus");
        assert("ut181a"@ != "ut61eplus"@) by { assert("ut181a"@.len() != "ut61eplus"@.len()); }
        reveal_strlit("ut61e+");
        assert("ut181a"@[2] != "ut61e+"@[2]);
        reveal_strlit("ut61e");
        assert("ut181a"@ != "ut61e"@) by { assert("ut181a"@.len() != "ut61e"@.len()); }
        reveal_strlit("ut61bplus");
        assert("ut181a"@ != "ut61bplus"@) by { assert("ut181a"@.len() != "ut61bplus"@.len()); }
        reveal_strlit("ut61b+");
        assert("ut181a"@[2] != "ut61b+"@[2]);
        reveal_strlit("ut61b");
        assert("ut181a"@ != "ut61b"@) by { assert("ut181a"@.len() != "ut61b"@.len()); }
        reveal_strlit("ut61dplus");
        assert("ut181a"@ != "ut61dplus"@) by { assert("ut181a"@.len() != "ut61dplus"@.len()); }
        reveal_strlit("ut61d+");
        assert("ut181a"@[2] != "ut61d+"@[2]);
        reveal_strlit("ut61d");
        assert("ut181a"@ != "ut61d"@) by { assert("ut181a"@.len() != "ut61d"@.len()); }
        reveal_strlit("ut161b");
        assert("ut181a"@[3] != "ut161b"@[3]);
        reveal_strlit("ut161d");
        assert("ut181a"@[3] != "ut161d"@[3]);
        reveal_strlit("ut161e");
        assert("ut181a"@[3] != "ut161e"@[3]);
        reveal_strlit("ut161");
        assert("ut181a"@ != "ut161"@) by { assert("ut181a"@.len() != "ut161"@.len()); }
        reveal_strlit("ut8803");
        assert("ut181a"@[2] != "ut8803"@[2]);
        reveal_strlit("ut8803e");
        assert("ut181a"@ != "ut8803e"@) by { assert("ut181a"@.len() != "ut8803e"@.len()); }
        reveal_strlit("ut171");
        assert("ut181a"@ != "ut171"@) by { assert("ut181a"@.len() != "ut171"@.len()); }
        reveal_strlit("ut171a");
        assert("ut181a"@[3] != "ut171a"@[3]);
        reveal_strlit("ut171b");
        assert("ut181a"@[3] != "ut171b"@[3]);
        reveal_strlit("ut171c");
        assert("ut181a"@[3] != "ut171c"@[3]);
        }
    } else if i == 20 {
        assert(family_aliases()[i] == ("ut181"@, DeviceFamily::Ut181a));
        assert(family_named("ut181"@) == Some(DeviceFamily::Ut181a)) by {
        reveal_strlit("ut181");
        reveal_strlit("ut61eplus");
        assert("ut181"@ != "ut61eplus"@) by { assert("ut181"@.len() != "ut61eplus"@.len()); }
        reveal_strlit("ut61e+");
        assert("ut181"@ != "ut61e+"@) by { assert("ut181"@.len() != "ut61e+"@.len()); }
        reveal_strlit("ut61e");
        assert("ut181"@[2] != "ut61e"@[2]);
        reveal_strlit("ut61bplus");
        assert("ut181"@ != "ut61bplus"@) by { assert("ut181"@.len() != "ut61bplus"@.len()); }
        reveal_strlit("ut61b+");
        assert("ut181"@ != "ut61b+"@) by { assert("ut181"@.len() != "ut61b+"@.len()); }
        reveal_strlit("ut61b");
        assert("ut181"@[2] != "ut61b"@[2]);
        reveal_strlit("ut61dplus");
        assert("ut181"@ != "ut61dplus"@) by { assert("ut181"@.len() != "ut61dplus"@.len()); }
        reveal_strlit("ut61d+");
        assert("ut181"@ != "ut61d+"@) by { assert("ut181"@.len() != "ut61d+"@.len()); }
        reveal_strlit("ut61d");
        assert("ut181"@[2] != "ut61d"@[2]);
        reveal_strlit("ut161b");
        assert("ut181"@ != "ut161b"@) by { assert("ut181"@.len() != "ut161b"@.len()); }
        reveal_strlit("ut161d");
        assert("ut181"@ != "ut161d"@) by { assert("ut181"@.len() != "ut161d"@.len()); }
        reveal_strlit("ut161e");
        assert("ut181"@ != "ut161e"@) by { assert("ut181"@.len() != "ut161e"@.len()); }
        reveal_strlit("ut161");
        assert("ut181"@[3] != "ut161"@[3]);
        reveal_strlit("ut8803");
        assert("ut181"@ != "ut8803"@) by { assert("ut181"@.len() != "ut8803"@.len()); }
        reveal_strlit("ut8803e");
        assert("ut181"@ != "ut8803e"@) by { assert("ut181"@.len() != "ut8803e"@.len()); }
        reveal_strlit("ut171");
        assert("ut181"@[3] != "ut171"@[3]);
        reveal_strlit("ut171a");
        assert("ut181"@ != "ut171a"@) by { assert("ut181"@.len() != "ut171a"@.len()); }
        reveal_strlit("ut171b");
        assert("ut181"@ != "ut171b"@) by { assert("ut181"@.len() != "ut171b"@.len()); }
        reveal_strlit("ut171c");
        assert("ut181"@ != "ut171c"@) by { assert("ut181"@.len() != "ut171c"@.len()); }
        }
    }
}

/// Only the names in [`family_aliases`] select a family, and each selects
/// the family listed with it.
pub proof fn lemma_family_named_only_aliases(name: Seq<char>)
    ensures
        family_named(name) matches Some(f) ==> family_aliases().contains((name, f)),
{
    if let Some(f) = family_named(name) {
        if name == "ut61eplus"@ && f == DeviceFamily::Ut61EPlus {
            assert(family_aliases()[0] == (name, f));
        }
        if name == "ut61e+"@ && f == DeviceFamily::Ut61EPlus {
            assert(family_aliases()[1] == (name, f));
        }
        if name == "ut61e"@ && f == DeviceFamily::Ut61EPlus {
            assert(family_aliases()[2] == (name, f));
        }
        if name == "ut61bplus"@ && f == DeviceFamily::Ut61EPlus {
            assert(family_aliases()[3] == (name, f));
        }
        if name == "ut61b+"@ && f == DeviceFamily::Ut61EPlus {
            assert(family_aliases()[4] == (name, f));
        }
        if name == "ut61b"@ && f == DeviceFamily::Ut61EPlus {
            assert(family_aliases()[5] == (name, f));
        }
        if name == "ut61dplus"@ && f == DeviceFamily::Ut61EPlus {
            assert(family_aliases()[6] == (name, f));
        }
        if name == "ut61d+"@ && f == DeviceFamily::Ut61EPlus {
            assert(family_aliases()[7] == (name, f));
        }
        if name == "ut61d"@ && f == DeviceFamily::Ut61EPlus {
            assert(family_aliases()[8] == (name, f));
        }
        if name == "ut161b"@ && f == DeviceFamily::Ut61EPlus {
            assert(family_aliases()[9] == (name, f));
        }
        if name == "ut161d"@ && f == DeviceFamily::Ut61EPlus {
            assert(family_aliases()[10] == (name, f));
        }
        if name == "ut161e"@ && f == DeviceFamily::Ut61EPlus {
            assert(family_aliases()[11] == (name, f));
        }
        if name == "ut161"@ && f == DeviceFamily::Ut61EPlus {
            assert(family_aliases()[12] == (name, f));
        }
        if name == "ut8803"@ && f == DeviceFamily::Ut8803 {
            assert(family_aliases()[13] == (name, f));
        }
        if name == "ut8803e"@ && f == DeviceFamily::Ut8803 {
            assert(family_aliases()[14] == (name, f));
        }
        if name == "ut171"@ && f == DeviceFamily::Ut171 {
            assert(family_aliases()[15] == (name, f));
        }
        if name == "ut171a"@ && f == DeviceFamily::Ut171 {
            assert(family_aliases()[16] == (name, f));
        }
        if name == "ut171b"@ && f == DeviceFamily::Ut171 {
            assert(family_aliases()[17] == (name, f));
        }
        if name == "ut171c"@ && f == DeviceFamily::Ut171 {
            assert(family_aliases()[18] == (name, f));
        }
        if name == "ut181a"@ && f == DeviceFamily::Ut181a {
            assert(family_aliases()[19] == (name, f));
        }
        if name == "ut181"@ && f == DeviceFamily::Ut181a {
            assert(family_aliases()[20] == (name, f));
        }
    }
}

/// A family's canonical name selects that family again.
pub proof fn lemma_family_name_roundtrip(f: DeviceFamily)
    ensures
        family_named(lowered(f.name())) == Some(f),
{
    match f {
        DeviceFamily::Ut61EPlus => {
            reveal_strlit("ut61eplus");
            assert(lowered("ut61eplus"@) =~= "ut61eplus"@);
        },
        DeviceFamily::Ut8803 => {
            reveal_strlit("ut8803");
            assert(lowered("ut8803"@) =~= "ut8803"@);
            reveal_strlit("ut61eplus");
            reveal_strlit("ut61e+");
            assert("ut8803"@[2] != "ut61e+"@[2]);
            reveal_strlit("ut61e");
            reveal_strlit("ut61bplus");
            reveal_strlit("ut61b+");
            assert("ut8803"@[2] != "ut61b+"@[2]);
            reveal_strlit("ut61b");
            reveal_strlit("ut61dplus");
            reveal_strlit("ut61d+");
            assert("ut8803"@[2] != "ut61d+"@[2]);
            reveal_strlit("ut61d");
            reveal_strlit("ut161b");
            assert("ut8803"@[2] != "ut161b"@[2]);
            reveal_strlit("ut161d");
            assert("ut8803"@[2] != "ut161d"@[2]);
            reveal_strlit("ut161e");
            assert("ut8803"@[2] != "ut161e"@[2]);
            reveal_strlit("ut161");
        },
        DeviceFamily::Ut171 => {
            reveal_strlit("ut171");
            assert(lowered("ut171"@) =~= "ut171"@);
            reveal_strlit("ut61eplus");
            reveal_strlit("ut61e+");
            reveal_strlit("ut61e");
            assert("ut171"@[2] != "ut61e"@[2]);
            reveal_strlit("ut61bplus");
            reveal_strlit("ut61b+");
            reveal_strlit("ut61b");
            assert("ut171"@[2] != "ut61b"@[2]);
            reveal_strlit("ut61dplus");
            reveal_strlit("ut61d+");
            reveal_strlit("ut61d");
            assert("ut171"@[2] != "ut61d"@[2]);
            reveal_strlit("ut161b");
            reveal_strlit("ut161d");
            reveal_strlit("ut161e");
            reveal_strlit("ut161");
            assert("ut171"@[3] != "ut161"@[3]);
            reveal_strlit("ut8803");
            reveal_strlit("ut8803e");
        },
        DeviceFamily::Ut181a => {
            reveal_strlit("ut181a");
            assert(lowered("ut181a"@) =~= "ut181a"@);
            reveal_strlit("ut61eplus");
            reveal_strlit("ut61e+");
            assert("ut181a"@[2] != "ut61e+"@[2]);
            reveal_strlit("ut61e");
            reveal_strlit("ut61bplus");
            reveal_strlit("ut61b+");
            assert("ut181a"@[2] != "ut61b+"@[2]);
            reveal_strlit("ut61b");
            reveal_strlit("ut61dplus");
            reveal_strlit("ut61d+");
            assert("ut181a"@[2] != "ut61d+"@[2]);
            reveal_strlit("ut61d");
            reveal_strlit("ut161b");
            assert("ut181a"@[3] != "ut161b"@[3]);
            reveal_strlit("ut161d");
            assert("ut181a"@[3] != "ut161d"@[3]);
            reveal_strlit("ut161e");
            assert("ut181a"@[3] != "ut161e"@[3]);
            reveal_strlit("ut161");
            reveal_strlit("ut8803");
            assert("ut181a"@[2] != "ut8803"@[2]);
            reveal_strlit("ut8803e");
            reveal_strlit("ut171");
            reveal_strlit("ut171a");
            assert("ut181a"@[3] != "ut171a"@[3]);
            reveal_strlit("ut171b");
            assert("ut181a"@[3] != "ut171b"@[3]);
            reveal_strlit("ut171c");
            assert("ut181a"@[3] != "ut171c"@[3]);
        },
    }
}

} // verus!
