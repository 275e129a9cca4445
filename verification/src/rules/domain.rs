//! Rules that name one domain.
use vstd::prelude::*;
use crate::rules::{describe, rule_line, RuleMatcher};
use crate::session::{Session, SocksAddr};
use crate::text::same_ignoring_case;

verus! {

/// Covers exactly the domain it names.
pub struct Domain {
    pub domain: String,
    pub target: String,
}

impl Clone for Domain {
    fn clone(&self) -> (r: Domain)
        ensures
            r == *self,
    {
        Domain { domain: self.domain.clone(), target: self.target.clone() }
    }
}

/// `name` is the domain `rule`, whatever the case of its ASCII letters.
pub open spec fn domain_matches(rule: Seq<char>, name: Seq<char>) -> bool {
    same_ignoring_case(rule, name)
}

impl Domain {
    /// The rule in words, such as `DIRECT domain example.com`.
    pub fn to_string(&self) -> (r: String)
        ensures
            r@ == rule_line(self.target@, " domain "@, self.domain@),
    {
        describe(self.target.as_str(), " domain ", self.domain.as_str())
    }
}

impl RuleMatcher for Domain {
    open spec fn covers(&self, destination: SocksAddr) -> bool {
        match destination {
            SocksAddr::Ip(_) => false,
            SocksAddr::Domain(name, _) => domain_matches(self.domain@, name@),
        }
    }

    open spec fn target_text(&self) -> Seq<char> {
        self.target@
    }

    open spec fn payload_text(&self) -> Seq<char> {
        self.domain@
    }

    open spec fn kind_text(&self) -> Seq<char> {
        "Domain"@
    }

    fn apply(&self, sess: &Session) -> (r: bool) {
        match &sess.destination {
            SocksAddr::Ip(_) => false,
            SocksAddr::Domain(name, _) => self.domain.as_str().eq_ignore_ascii_case(
                name.as_str(),
            ),
        }
    }

    fn target(&self) -> (r: &str) {
        self.target.as_str()
    }

    fn payload(&self) -> (r: String) {
        self.domain.clone()
    }

    fn kind_name(&self) -> (r: &str) {
        "Domain"
    }
}

} // verus!
