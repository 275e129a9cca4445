//! Routing rules over the domain name of a destination.
use vstd::prelude::*;
use crate::session::{Session, SocksAddr};

pub mod domain;
pub mod domain_keyword;
pub mod domain_suffix;
pub mod laws;

verus! {

/// A routing rule: which destinations it covers, and where it sends them.
pub trait RuleMatcher {
    /// Whether the rule covers `destination`.
    spec fn covers(&self, destination: SocksAddr) -> bool;

    /// The outbound that the rule names.
    spec fn target_text(&self) -> Seq<char>;

    /// What the rule looks for.
    spec fn payload_text(&self) -> Seq<char>;

    /// The kind of the rule.
    spec fn kind_text(&self) -> Seq<char>;

    /// Whether the rule covers the destination of `sess`.
    fn apply(&self, sess: &Session) -> (r: bool)
        ensures
            r == self.covers(sess.destination),
    ;

    /// The outbound that the rule sends its destinations to.
    fn target(&self) -> (r: &str)
        ensures
            r@ == self.target_text(),
    ;

    /// What the rule looks for, as it was written.
    fn payload(&self) -> (r: String)
        ensures
            r@ == self.payload_text(),
    ;

    /// The name of the rule's kind.
    fn kind_name(&self) -> (r: &str)
        ensures
            r@ == self.kind_text(),
    ;
}

/// A rule in words: its target, its kind between spaces, and what it looks for.
pub open spec fn rule_line(target: Seq<char>, kind: Seq<char>, payload: Seq<char>) -> Seq<char> {
    target + kind + payload
}

/// Joins the three parts of a rule's description.
pub(crate) fn describe(target: &str, kind: &str, payload: &str) -> (r: String)
    ensures
        r@ == rule_line(target@, kind@, payload@),
{
    let mut line: String = target.to_owned();
    line.append(kind);
    line.append(payload);
    line
}

} // verus!
