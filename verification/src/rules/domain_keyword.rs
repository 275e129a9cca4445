//! Rules that look for a word anywhere in a domain name.
use vstd::prelude::*;
use crate::rules::{describe, rule_line, RuleMatcher};
use crate::session::{Session, SocksAddr};
use crate::text::{ascii_lower, contains, occurs_in};

verus! {

/// Covers every domain that holds a keyword.
pub struct DomainKeyword {
    pub keyword: String,
    pub target: String,
}

impl Clone for DomainKeyword {
    fn clone(&self) -> (r: DomainKeyword)
        ensures
            r == *self,
    {
        DomainKeyword { keyword: self.keyword.clone(), target: self.target.clone() }
    }
}

/// `keyword` stands somewhere in `name`, whatever the case of ASCII letters.
pub open spec fn keyword_matches(keyword: Seq<char>, name: Seq<char>) -> bool {
    occurs_in(ascii_lower(keyword), ascii_lower(name))
}

impl DomainKeyword {
    /// The rule in words, such as `PROXY keyword google`.
    pub fn to_string(&self) -> (r: String)
        ensures
            r@ == rule_line(self.target@, " keyword "@, self.keyword@),
    {
        describe(self.target.as_str(), " keyword ", self.keyword.as_str())
    }
}

impl RuleMatcher for DomainKeyword {
    open spec fn covers(&self, destination: SocksAddr) -> bool {
        match destination {
            SocksAddr::Ip(_) => false,
            SocksAddr::Domain(name, _) => keyword_matches(self.keyword@, name@),
        }
    }

    open spec fn target_text(&self) -> Seq<char> {
        self.target@
    }

    open spec fn payload_text(&self) -> Seq<char> {
        self.keyword@
    }

    open spec fn kind_text(&self) -> Seq<char> {
        "DomainKeyword"@
    }

    fn apply(&self, sess: &Session) -> (r: bool) {
        match &sess.destination {
            SocksAddr::Ip(_) => false,
            SocksAddr::Domain(name, _) => {
                let d: String = name.as_str().to_ascii_lowercase();
                let k: String = self.keyword.as_str().to_ascii_lowercase();
                contains(d.as_str(), k.as_str())
            },
        }
    }

    fn target(&self) -> (r: &str) {
        self.target.as_str()
    }

    fn payload(&self) -> (r: String) {
        self.keyword.clone()
    }

    fn kind_name(&self) -> (r: &str) {
        "DomainKeyword"
    }
}

} // verus!
