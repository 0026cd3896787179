use crate::error::RogError;
use vstd::prelude::*;
use vstd::string::StrSliceExecFns;

verus! {

/// The three performance profiles of the machine.
#[derive(Clone, Copy, Debug, PartialEq, Eq, Structural)]
pub enum FanLevel {
    Normal,
    Boost,
    Silent,
}

/// The profile that a stored code stands for: 0, 1 and 2 name the three
/// profiles, and every other code falls back to `Normal`.
pub open spec fn level_of(n: u8) -> FanLevel {
    if n == 1 {
        FanLevel::Boost
    } else if n == 2 {
        FanLevel::Silent
    } else {
        FanLevel::Normal
    }
}

/// The code under which a profile is stored and written to the fan control.
pub open spec fn code_of(l: FanLevel) -> u8 {
    match l {
        FanLevel::Normal => 0,
        FanLevel::Boost => 1,
        FanLevel::Silent => 2,
    }
}

/// The profile after `l` in the cycle Normal, Boost, Silent.
pub open spec fn next_level(l: FanLevel) -> FanLevel {
    match l {
        FanLevel::Normal => FanLevel::Boost,
        FanLevel::Boost => FanLevel::Silent,
        FanLevel::Silent => FanLevel::Normal,
    }
}

/// The canonical lower-case name of a profile.
pub open spec fn name_of(l: FanLevel) -> Seq<char> {
    match l {
        FanLevel::Normal => seq!['n', 'o', 'r', 'm', 'a', 'l'],
        FanLevel::Boost => seq!['b', 'o', 'o', 's', 't'],
        FanLevel::Silent => seq!['s', 'i', 'l', 'e', 'n', 't'],
    }
}

/// `c` is the lower-case ASCII letter `t`, or its upper-case form.
pub open spec fn same_letter(c: char, t: char) -> bool {
    c == t || ('A' <= c && c <= 'Z' && c as u32 + 32 == t as u32)
}

/// `s` spells the lower-case ASCII word `name`, in any mix of cases.
pub open spec fn spells_ignoring_case(s: Seq<char>, name: Seq<char>) -> bool {
    &&& s.len() == name.len()
    &&& forall|i: int| 0 <= i < s.len() ==> same_letter(#[trigger] s[i], name[i])
}

/// What parsing `s` gives: the profile whose name `s` spells in any case,
/// else a parse error.
pub open spec fn parse_level(s: Seq<char>) -> Result<FanLevel, RogError> {
    if spells_ignoring_case(s, name_of(FanLevel::Normal)) {
        Ok(FanLevel::Normal)
    } else if spells_ignoring_case(s, name_of(FanLevel::Boost)) {
        Ok(FanLevel::Boost)
    } else if spells_ignoring_case(s, name_of(FanLevel::Silent)) {
        Ok(FanLevel::Silent)
    } else {
        Err(RogError::ParseFanLevel)
    }
}

fn same_letter_exec(c: char, t: char) -> (r: bool)
    ensures
        r == same_letter(c, t),
{
    c == t || ('A' <= c && c <= 'Z' && (c as u32) + 32 == t as u32)
}

/// Compares `s` with the lower-case word `name`, ignoring the case of ASCII
/// letters in `s`.
fn spells_ignoring_case_exec(s: &str, name: &str) -> (r: bool)
    ensures
        r == spells_ignoring_case(s@, name@),
{
    let n = s.unicode_len();
    if n != name.unicode_len() {
        return false;
    }
    let mut i: usize = 0;
    while i < n
        invariant
            n == s@.len(),
            n == name@.len(),
            i <= n,
            forall|j: int| 0 <= j < i ==> same_letter(#[trigger] s@[j], name@[j]),
        decreases n - i,
    {
        if !same_letter_exec(s.get_char(i), name.get_char(i)) {
            return false;
        }
        i = i + 1;
    }
    true
}

impl FanLevel {
    /// The profile for a stored code; unknown codes give `Normal`.
    pub fn from_code(n: u8) -> (r: FanLevel)
        ensures
            r == level_of(n),
    {
        if n == 1 {
            FanLevel::Boost
        } else if n == 2 {
            FanLevel::Silent
        } else {
            FanLevel::Normal
        }
    }

    /// The code of this profile.
    pub fn code(self) -> (r: u8)
        ensures
            r == code_of(self),
    {
        match self {
            FanLevel::Normal => 0,
            FanLevel::Boost => 1,
            FanLevel::Silent => 2,
        }
    }

    /// The next profile in the cycle Normal, Boost, Silent.
    pub fn next(self) -> (r: FanLevel)
        ensures
            r == next_level(self),
    {
        match self {
            FanLevel::Normal => FanLevel::Boost,
            FanLevel::Boost => FanLevel::Silent,
            FanLevel::Silent => FanLevel::Normal,
        }
    }

    /// The canonical lower-case name of this profile.
    pub fn name(self) -> (r: &'static str)
        ensures
            r@ == name_of(self),
    {
        match self {
            FanLevel::Normal => {
                let r = "normal";
                proof {
                    reveal_strlit("normal");
                }
                assert(r@ =~= name_of(self));
                r
            },
            FanLevel::Boost => {
                let r = "boost";
                proof {
                    reveal_strlit("boost");
                }
                assert(r@ =~= name_of(self));
                r
            },
            FanLevel::Silent => {
                let r = "silent";
                proof {
                    reveal_strlit("silent");
                }
                assert(r@ =~= name_of(self));
                r
            },
        }
    }

    /// Reads a profile from its name, in any mix of upper and lower case.
    pub fn parse(s: &str) -> (r: Result<FanLevel, RogError>)
        ensures
            r == parse_level(s@),
    {
        if spells_ignoring_case_exec(s, FanLevel::Normal.name()) {
            Ok(FanLevel::Normal)
        } else if spells_ignoring_case_exec(s, FanLevel::Boost.name()) {
            Ok(FanLevel::Boost)
        } else if spells_ignoring_case_exec(s, FanLevel::Silent.name()) {
            Ok(FanLevel::Silent)
        } else {
            Err(RogError::ParseFanLevel)
        }
    }
}

impl core::str::FromStr for FanLevel {
    type Err = RogError;

    fn from_str(s: &str) -> (r: Result<FanLevel, RogError>)
        ensures
            r == parse_level(s@),
    {
        FanLevel::parse(s)
    }
}

impl From<u8> for FanLevel {
    fn from(n: u8) -> (r: FanLevel) {
        FanLevel::from_code(n)
    }
}

impl vstd::std_specs::convert::FromSpecImpl<u8> for FanLevel {
    open spec fn obeys_from_spec() -> bool {
        true
    }

    open spec fn from_spec(n: u8) -> FanLevel {
        level_of(n)
    }
}

impl From<FanLevel> for u8 {
    fn from(l: FanLevel) -> (r: u8) {
        l.code()
    }
}

impl vstd::std_specs::convert::FromSpecImpl<FanLevel> for u8 {
    open spec fn obeys_from_spec() -> bool {
        true
    }

    open spec fn from_spec(l: FanLevel) -> u8 {
        code_of(l)
    }
}

/// Decoding the code of a decoded profile gives that profile again, and the
/// codes 0, 1 and 2 stand for Normal, Boost and Silent.
pub proof fn lemma_code_round_trip(n: u8)
    ensures
        level_of(code_of(level_of(n))) == level_of(n),
        n == 0 ==> level_of(n) == FanLevel::Normal,
        n == 1 ==> level_of(n) == FanLevel::Boost,
        n == 2 ==> level_of(n) == FanLevel::Silent,
{
}

/// Every code from 3 up decodes to `Normal`.
pub proof fn lemma_unknown_code_is_normal(n: u8)
    requires
        n >= 3,
    ensures
        level_of(n) == FanLevel::Normal,
{
}

/// Parsing succeeds exactly on the names of the profiles written in any
/// mix of cases, and gives the profile so named; any other text is a parse
/// error.
pub proof fn lemma_parse_ignores_case(s: Seq<char>, l: FanLevel)
    ensures
        parse_level(s) == Ok::<FanLevel, RogError>(l) <==> spells_ignoring_case(s, name_of(l)),
        parse_level(s) == Err::<FanLevel, RogError>(RogError::ParseFanLevel) <==> (
        !spells_ignoring_case(s, name_of(FanLevel::Normal)) && !spells_ignoring_case(
            s,
            name_of(FanLevel::Boost),
        ) && !spells_ignoring_case(s, name_of(FanLevel::Silent))),
{
    if spells_ignoring_case(s, name_of(FanLevel::Normal)) {
        assert(same_letter(s[0], 'n'));
        assert(!spells_ignoring_case(s, name_of(FanLevel::Silent)));
    }
}

/// Stepping goes Normal to Boost to Silent and back to Normal: three steps
/// from any profile return to it.
pub proof fn lemma_step_cycles(l: FanLevel)
    ensures
        next_level(FanLevel::Normal) == FanLevel::Boost,
        next_level(FanLevel::Boost) == FanLevel::Silent,
        next_level(FanLevel::Silent) == FanLevel::Normal,
        next_level(next_level(next_level(l))) == l,
{
}

} // verus!
