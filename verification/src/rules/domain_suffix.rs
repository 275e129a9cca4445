//! Rules that name a domain together with everything below it.
use vstd::prelude::*;
use vstd::string::*;
use vstd::utf8::*;
use crate::rules::{describe, rule_line, RuleMatcher};
use crate::session::{Session, SocksAddr};
use crate::text::{
    lemma_encode_injective, lemma_join_at_dot, lemma_same_ignoring_case_len, lemma_split_at_dot,
    same_ignoring_case,
};

verus! {

/// Covers a domain and its subdomains.
pub struct DomainSuffix {
    pub suffix: String,
    pub target: String,
}

impl Clone for DomainSuffix {
    fn clone(&self) -> (r: DomainSuffix)
        ensures
            r == *self,
    {
        DomainSuffix { suffix: self.suffix.clone(), target: self.target.clone() }
    }
}

/// `name` reads `before`, a full stop, `after`.
pub open spec fn parts_at_dot(name: Seq<char>, before: Seq<char>, after: Seq<char>) -> bool {
    name == before + seq!['.'] + after
}

/// `name` is `suffix`, or ends in a full stop followed by `suffix`, whatever the
/// case of ASCII letters.
pub open spec fn suffix_matches(suffix: Seq<char>, name: Seq<char>) -> bool {
    ||| same_ignoring_case(name, suffix)
    ||| exists|before: Seq<char>, after: Seq<char>|
        #[trigger] parts_at_dot(name, before, after) && same_ignoring_case(after, suffix)
}

/// Where the full stop lies in the bytes of a name that ends in a full stop and
/// `suffix`.
proof fn lemma_suffix_position(name: Seq<char>, suffix: Seq<char>)
    ensures
        forall|before: Seq<char>, after: Seq<char>|
            #[trigger] parts_at_dot(name, before, after) && same_ignoring_case(after, suffix) ==> {
                let bytes = encode_utf8(name);
                let dot = bytes.len() - encode_utf8(suffix).len() - 1;
                &&& dot >= 0
                &&& bytes[dot] == 0x2e
                &&& bytes.subrange(dot + 1, bytes.len() as int) == encode_utf8(after)
            },
{
    assert forall|before: Seq<char>, after: Seq<char>|
        #[trigger] parts_at_dot(name, before, after) && same_ignoring_case(after, suffix) implies {
        let bytes = encode_utf8(name);
        let dot = bytes.len() - encode_utf8(suffix).len() - 1;
        &&& dot >= 0
        &&& bytes[dot] == 0x2e
        &&& bytes.subrange(dot + 1, bytes.len() as int) == encode_utf8(after)
    } by {
        lemma_join_at_dot(before, after);
        lemma_same_ignoring_case_len(after, suffix);
    }
}

/// Decides [`suffix_matches`] on the bytes of the two texts.
fn is_in_domain(name: &str, suffix: &str) -> (r: bool)
    ensures
        r == suffix_matches(suffix@, name@),
{
    if name.eq_ignore_ascii_case(suffix) {
        return true;
    }
    let bytes: &[u8] = name.as_bytes();
    let name_len: usize = bytes.len();
    let suffix_len: usize = suffix.as_bytes().len();
    proof {
        lemma_suffix_position(name@, suffix@);
    }
    if name_len > suffix_len {
        let dot: usize = name_len - suffix_len - 1;
        if bytes[dot] == 0x2e {
            let ghost parts = lemma_split_at_dot(name@, dot as int);
            let rest: &str = name.split_at(dot + 1).1;
            proof {
                lemma_encode_injective(rest@, parts.1);
                assert(parts_at_dot(name@, parts.0, rest@));
                assert forall|before: Seq<char>, after: Seq<char>|
                    #[trigger] parts_at_dot(name@, before, after) && same_ignoring_case(
                        after,
                        suffix@,
                    ) implies after == rest@ by {
                    lemma_encode_injective(after, rest@);
                }
            }
            return rest.eq_ignore_ascii_case(suffix);
        }
    }
    false
}

impl DomainSuffix {
    /// The rule in words, such as `PROXY suffix google.com`.
    pub fn to_string(&self) -> (r: String)
        ensures
            r@ == rule_line(self.target@, " suffix "@, self.suffix@),
    {
        describe(self.target.as_str(), " suffix ", self.suffix.as_str())
    }
}

impl RuleMatcher for DomainSuffix {
    open spec fn covers(&self, destination: SocksAddr) -> bool {
        match destination {
            SocksAddr::Ip(_) => false,
            SocksAddr::Domain(name, _) => suffix_matches(self.suffix@, name@),
        }
    }

    open spec fn target_text(&self) -> Seq<char> {
        self.target@
    }

    open spec fn payload_text(&self) -> Seq<char> {
        self.suffix@
    }

    open spec fn kind_text(&self) -> Seq<char> {
        "DomainSuffix"@
    }

    fn apply(&self, sess: &Session) -> (r: bool) {
        match &sess.destination {
            SocksAddr::Ip(_) => false,
            SocksAddr::Domain(name, _) => is_in_domain(name.as_str(), self.suffix.as_str()),
        }
    }

    fn target(&self) -> (r: &str) {
        self.target.as_str()
    }

    fn payload(&self) -> (r: String) {
        self.suffix.clone()
    }

    fn kind_name(&self) -> (r: &str) {
        "DomainSuffix"
    }
}

} // verus!
