//! What holds between the domain rules.
use vstd::prelude::*;
use crate::rules::domain::domain_matches;
use crate::rules::domain_keyword::keyword_matches;
use crate::rules::domain_suffix::{parts_at_dot, suffix_matches};
use crate::rules::{domain::Domain, domain_keyword::DomainKeyword, domain_suffix::DomainSuffix};
use crate::rules::RuleMatcher;
use crate::session::{Session, SocketAddr, SocksAddr};
use crate::text::{ascii_lower, ascii_lower_char, occurs_in, same_ignoring_case};

verus! {

/// No domain rule depends on the case of the ASCII letters, neither in the rule nor
/// in the name it is held against.
pub proof fn law_case_is_ignored(
    rule: Seq<char>,
    other_rule: Seq<char>,
    name: Seq<char>,
    other_name: Seq<char>,
)
    requires
        same_ignoring_case(rule, other_rule),
        same_ignoring_case(name, other_name),
    ensures
        domain_matches(rule, name) == domain_matches(other_rule, other_name),
        keyword_matches(rule, name) == keyword_matches(other_rule, other_name),
        suffix_matches(rule, name) == suffix_matches(other_rule, other_name),
{
    if suffix_matches(rule, name) {
        lemma_suffix_ignores_case(rule, other_rule, name, other_name);
    }
    if suffix_matches(other_rule, other_name) {
        lemma_suffix_ignores_case(other_rule, rule, other_name, name);
    }
}

/// No domain rule covers a destination that is given by its IP address.
pub proof fn law_ip_is_never_covered(
    domain: Domain,
    keyword: DomainKeyword,
    suffix: DomainSuffix,
    addr: SocketAddr,
)
    ensures
        !domain.covers(SocksAddr::Ip(addr)),
        !keyword.covers(SocksAddr::Ip(addr)),
        !suffix.covers(SocksAddr::Ip(addr)),
{
}

/// Of three rules with the same text, the one on the suffix covers whatever the one
/// on the domain covers, and the one on the keyword whatever the one on the suffix
/// covers.
pub proof fn law_rules_widen(text: Seq<char>, name: Seq<char>)
    ensures
        domain_matches(text, name) ==> suffix_matches(text, name),
        suffix_matches(text, name) ==> keyword_matches(text, name),
{
    if suffix_matches(text, name) {
        let needle = ascii_lower(text);
        let haystack = ascii_lower(name);
        if same_ignoring_case(name, text) {
            let at: int = 0;
            assert(haystack.subrange(at, at + needle.len()) =~= needle);
        } else {
            let (before, after) = choose|before: Seq<char>, after: Seq<char>|
                #[trigger] parts_at_dot(name, before, after) && same_ignoring_case(after, text);
            let at = before.len() as int + 1;
            assert(ascii_lower(after).len() == needle.len());
            assert(haystack.subrange(at, at + needle.len()) =~= ascii_lower(after)) by {
                assert forall|i: int| 0 <= i < after.len() implies name[at + i] == after[i] by {}
            }
        }
        assert(occurs_in(needle, haystack));
    }
}

/// Keyword rules nest: a keyword that occurs in another covers whatever the other
/// covers.
pub proof fn law_keywords_nest(part: Seq<char>, keyword: Seq<char>, name: Seq<char>)
    requires
        keyword_matches(part, keyword),
        keyword_matches(keyword, name),
    ensures
        keyword_matches(part, name),
{
    let (p, k, n) = (ascii_lower(part), ascii_lower(keyword), ascii_lower(name));
    let i = choose|i: int|
        0 <= i <= k.len() - p.len() && #[trigger] k.subrange(i, i + p.len()) == p;
    let j = choose|j: int|
        0 <= j <= n.len() - k.len() && #[trigger] n.subrange(j, j + k.len()) == k;
    let at = i + j;
    assert(n.subrange(at, at + p.len()) =~= n.subrange(j, j + k.len()).subrange(i, i + p.len()));
}

/// A keyword rule that covers a name covers every name that holds it.
pub proof fn law_keyword_covers_longer_names(
    keyword: Seq<char>,
    name: Seq<char>,
    before: Seq<char>,
    after: Seq<char>,
)
    requires
        keyword_matches(keyword, name),
    ensures
        keyword_matches(keyword, before + name + after),
{
    let longer = ascii_lower(before + name + after);
    let at = before.len() as int;
    assert(longer.subrange(at, at + ascii_lower(name).len()) =~= ascii_lower(name));
    law_keywords_nest(keyword, name, before + name + after);
}

/// A suffix rule that covers a domain covers every domain below it.
pub proof fn law_suffix_covers_subdomains(suffix: Seq<char>, name: Seq<char>, label: Seq<char>)
    requires
        suffix_matches(suffix, name),
    ensures
        suffix_matches(suffix, label + seq!['.'] + name),
{
    let below = label + seq!['.'] + name;
    if same_ignoring_case(name, suffix) {
        assert(parts_at_dot(below, label, name));
    } else {
        let (before, after) = choose|before: Seq<char>, after: Seq<char>|
            #[trigger] parts_at_dot(name, before, after) && same_ignoring_case(after, suffix);
        let longer = label + seq!['.'] + before;
        assert(below =~= longer + seq!['.'] + after);
        assert(parts_at_dot(below, longer, after));
    }
}

/// Suffix rules nest: what lies below a covered domain is covered.
pub proof fn law_suffixes_nest(outer: Seq<char>, inner: Seq<char>, name: Seq<char>)
    requires
        suffix_matches(outer, inner),
        suffix_matches(inner, name),
    ensures
        suffix_matches(outer, name),
{
    if same_ignoring_case(name, inner) {
        lemma_suffix_ignores_case(outer, outer, inner, name);
    } else {
        let (before, after) = choose|before: Seq<char>, after: Seq<char>|
            #[trigger] parts_at_dot(name, before, after) && same_ignoring_case(after, inner);
        lemma_suffix_ignores_case(outer, outer, inner, after);
        law_suffix_covers_subdomains(outer, after, before);
    }
}

/// A suffix is matched at whole labels only: a longer name that ends in the suffix
/// is covered if and only if a full stop stands before it.
pub proof fn law_suffix_stops_at_labels(suffix: Seq<char>, before: Seq<char>, after: Seq<char>)
    requires
        before.len() > 0,
        same_ignoring_case(after, suffix),
    ensures
        suffix_matches(suffix, before + after) <==> before.last() == '.',
{
    let name = before + after;
    assert(ascii_lower(after).len() == ascii_lower(suffix).len());
    assert(ascii_lower(name).len() == name.len());
    if before.last() == '.' {
        assert(name =~= before.drop_last() + seq!['.'] + after);
        assert(parts_at_dot(name, before.drop_last(), after));
    }
    if suffix_matches(suffix, name) {
        assert(!same_ignoring_case(name, suffix));
        let (b, a) = choose|b: Seq<char>, a: Seq<char>|
            #[trigger] parts_at_dot(name, b, a) && same_ignoring_case(a, suffix);
        assert(ascii_lower(a).len() == ascii_lower(suffix).len());
        assert(b.len() + 1 == before.len());
        assert(name[b.len() as int] == '.');
        assert(name[b.len() as int] == before.last());
    }
}

/// One direction of the case law for suffixes.
proof fn lemma_suffix_ignores_case(
    suffix: Seq<char>,
    other_suffix: Seq<char>,
    name: Seq<char>,
    other_name: Seq<char>,
)
    requires
        same_ignoring_case(suffix, other_suffix),
        same_ignoring_case(name, other_name),
        suffix_matches(suffix, name),
    ensures
        suffix_matches(other_suffix, other_name),
{
    if !same_ignoring_case(name, suffix) {
        let (before, after) = choose|before: Seq<char>, after: Seq<char>|
            #[trigger] parts_at_dot(name, before, after) && same_ignoring_case(after, suffix);
        let at = before.len() as int;
        assert(ascii_lower(name).len() == ascii_lower(other_name).len());
        assert forall|i: int| 0 <= i < name.len() implies ascii_lower_char(#[trigger] name[i])
            == ascii_lower_char(other_name[i]) by {
            assert(ascii_lower(name)[i] == ascii_lower(other_name)[i]);
        }
        assert(name[at] == '.');
        assert(other_name[at] == '.');
        let other_before = other_name.subrange(0, at);
        let other_after = other_name.subrange(at + 1, other_name.len() as int);
        assert(other_name =~= other_before + seq!['.'] + other_after);
        assert forall|i: int| 0 <= i < after.len() implies after[i] == name[at + 1 + i] by {}
        assert(ascii_lower(other_after) =~= ascii_lower(after));
        assert(parts_at_dot(other_name, other_before, other_after));
    }
}

/// The two characters are the same, or one ASCII letter in its two cases.
pub open spec fn same_letter(a: char, b: char) -> bool {
    ||| a == b
    ||| 'A' <= a <= 'Z' && b as int == a as int + 32
    ||| 'A' <= b <= 'Z' && a as int == b as int + 32
}

/// From `at` on, `name` reads `part`, letter by letter.
pub open spec fn reads_at(name: Seq<char>, at: int, part: Seq<char>) -> bool {
    &&& 0 <= at <= name.len() - part.len()
    &&& forall|i: int| 0 <= i < part.len() ==> same_letter(#[trigger] part[i], name[at + i])
}

/// A domain rule says yes if and only if the destination is named and its name has the
/// length and the letters of the rule's domain.
pub proof fn law_domain_rule_decides(rule: Domain, sess: Session, r: bool)
    requires
        call_ensures(Domain::apply, (&rule, &sess), r),
    ensures
        r <==> (sess.destination matches SocksAddr::Domain(name, _) && name@.len()
            == rule.domain@.len() && reads_at(name@, 0, rule.domain@)),
{
    if let SocksAddr::Domain(name, _) = sess.destination {
        let d = rule.domain@;
        assert(ascii_lower(d).len() == d.len() && ascii_lower(name@).len() == name@.len());
        if name@.len() == d.len() {
            lemma_reads_at(name@, 0, d);
            assert(ascii_lower(name@).subrange(0, d.len() as int) =~= ascii_lower(name@));
        }
    }
}

/// A keyword rule says yes if and only if the destination is named and its name reads
/// the keyword somewhere.
pub proof fn law_keyword_rule_decides(rule: DomainKeyword, sess: Session, r: bool)
    requires
        call_ensures(DomainKeyword::apply, (&rule, &sess), r),
    ensures
        r <==> (sess.destination matches SocksAddr::Domain(name, _) && exists|at: int|
            #[trigger] reads_at(name@, at, rule.keyword@)),
{
    if let SocksAddr::Domain(name, _) = sess.destination {
        let (needle, haystack) = (ascii_lower(rule.keyword@), ascii_lower(name@));
        assert(needle.len() == rule.keyword@.len() && haystack.len() == name@.len());
        if r {
            let at = choose|at: int|
                0 <= at <= haystack.len() - needle.len() && #[trigger] haystack.subrange(
                    at,
                    at + needle.len(),
                ) == needle;
            lemma_reads_at(name@, at, rule.keyword@);
        }
        if exists|at: int| #[trigger] reads_at(name@, at, rule.keyword@) {
            let at = choose|at: int| #[trigger] reads_at(name@, at, rule.keyword@);
            lemma_reads_at(name@, at, rule.keyword@);
            assert(haystack.subrange(at, at + needle.len()) == needle);
        }
    }
}

/// A suffix rule says yes if and only if the destination is named, its name reads the
/// suffix at its end, and what stands before, if anything, ends in a full stop. On
/// which port the destination is has no say.
pub proof fn law_suffix_rule_decides(rule: DomainSuffix, sess: Session, r: bool)
    requires
        call_ensures(DomainSuffix::apply, (&rule, &sess), r),
    ensures
        r <==> (sess.destination matches SocksAddr::Domain(name, _) && {
            let at = name@.len() - rule.suffix@.len();
            reads_at(name@, at, rule.suffix@) && (at > 0 ==> name@[at - 1] == '.')
        }),
{
    if let SocksAddr::Domain(name, _) = sess.destination {
        let (n, s) = (name@, rule.suffix@);
        let at = n.len() - s.len();
        assert(ascii_lower(n).len() == n.len() && ascii_lower(s).len() == s.len());
        if r && !same_ignoring_case(n, s) {
            let (before, after) = choose|before: Seq<char>, after: Seq<char>|
                #[trigger] parts_at_dot(n, before, after) && same_ignoring_case(after, s);
            assert(ascii_lower(after).len() == after.len());
            assert(at == before.len() + 1 && n[at - 1] == '.');
            assert(n.subrange(at, at + s.len()) =~= after);
            assert(ascii_lower(n).subrange(at, at + s.len()) =~= ascii_lower(after));
        }
        if r && same_ignoring_case(n, s) {
            assert(ascii_lower(n).subrange(at, at + s.len()) =~= ascii_lower(n));
        }
        if at >= 0 {
            lemma_reads_at(n, at, s);
            if reads_at(n, at, s) && at > 0 && n[at - 1] == '.' {
                let after = n.subrange(at, n.len() as int);
                assert(ascii_lower(after) =~= ascii_lower(n).subrange(at, at + s.len()));
                assert(n =~= n.subrange(0, at - 1) + seq!['.'] + after);
                assert(parts_at_dot(n, n.subrange(0, at - 1), after));
            }
            if reads_at(n, at, s) && at == 0 {
                assert(ascii_lower(n).subrange(0, s.len() as int) =~= ascii_lower(n));
            }
        }
    }
}

/// Only the name of a destination counts: on any two ports, and whatever else the two
/// sessions hold, every rule says the same of the same name.
pub proof fn law_only_the_name_counts(
    domain: Domain,
    keyword: DomainKeyword,
    suffix: DomainSuffix,
    a: Session,
    b: Session,
    said_of_a: (bool, bool, bool),
    said_of_b: (bool, bool, bool),
)
    requires
        a.destination matches SocksAddr::Domain(name, _) && b.destination matches SocksAddr::Domain(
            other,
            _,
        ) && name@ == other@,
        call_ensures(Domain::apply, (&domain, &a), said_of_a.0),
        call_ensures(Domain::apply, (&domain, &b), said_of_b.0),
        call_ensures(DomainKeyword::apply, (&keyword, &a), said_of_a.1),
        call_ensures(DomainKeyword::apply, (&keyword, &b), said_of_b.1),
        call_ensures(DomainSuffix::apply, (&suffix, &a), said_of_a.2),
        call_ensures(DomainSuffix::apply, (&suffix, &b), said_of_b.2),
    ensures
        said_of_a == said_of_b,
{
}

/// Where a rule sends its destinations has no say in which it covers, and no rule says
/// yes to an IP address.
pub proof fn law_target_does_not_decide(
    domains: (Domain, Domain),
    keywords: (DomainKeyword, DomainKeyword),
    suffixes: (DomainSuffix, DomainSuffix),
    sess: Session,
    first: (bool, bool, bool),
    second: (bool, bool, bool),
)
    requires
        domains.0.domain@ == domains.1.domain@,
        keywords.0.keyword@ == keywords.1.keyword@,
        suffixes.0.suffix@ == suffixes.1.suffix@,
        call_ensures(Domain::apply, (&domains.0, &sess), first.0),
        call_ensures(Domain::apply, (&domains.1, &sess), second.0),
        call_ensures(DomainKeyword::apply, (&keywords.0, &sess), first.1),
        call_ensures(DomainKeyword::apply, (&keywords.1, &sess), second.1),
        call_ensures(DomainSuffix::apply, (&suffixes.0, &sess), first.2),
        call_ensures(DomainSuffix::apply, (&suffixes.1, &sess), second.2),
    ensures
        first == second,
        sess.destination is Ip ==> !first.0 && !first.1 && !first.2,
{
}

/// Every rule reports its target and its text as they were written, and its kind.
pub proof fn law_rules_report_what_they_hold(
    domain: Domain,
    keyword: DomainKeyword,
    suffix: DomainSuffix,
    targets: (&str, &str, &str),
    payloads: (String, String, String),
    kinds: (&str, &str, &str),
)
    requires
        call_ensures(Domain::target, (&domain,), targets.0),
        call_ensures(DomainKeyword::target, (&keyword,), targets.1),
        call_ensures(DomainSuffix::target, (&suffix,), targets.2),
        call_ensures(Domain::payload, (&domain,), payloads.0),
        call_ensures(DomainKeyword::payload, (&keyword,), payloads.1),
        call_ensures(DomainSuffix::payload, (&suffix,), payloads.2),
        call_ensures(Domain::kind_name, (&domain,), kinds.0),
        call_ensures(DomainKeyword::kind_name, (&keyword,), kinds.1),
        call_ensures(DomainSuffix::kind_name, (&suffix,), kinds.2),
    ensures
        targets.0@ == domain.target@,
        targets.1@ == keyword.target@,
        targets.2@ == suffix.target@,
        payloads.0@ == domain.domain@,
        payloads.1@ == keyword.keyword@,
        payloads.2@ == suffix.suffix@,
        kinds.0@ == "Domain"@,
        kinds.1@ == "DomainKeyword"@,
        kinds.2@ == "DomainSuffix"@,
{
}

/// A rule in words starts with its target and ends in its text, with one word between
/// spaces for its kind.
pub proof fn law_rules_in_words(
    domain: Domain,
    keyword: DomainKeyword,
    suffix: DomainSuffix,
    words: (String, String, String),
)
    requires
        call_ensures(Domain::to_string, (&domain,), words.0),
        call_ensures(DomainKeyword::to_string, (&keyword,), words.1),
        call_ensures(DomainSuffix::to_string, (&suffix,), words.2),
    ensures
        words.0@ == domain.target@ + " domain "@ + domain.domain@,
        words.1@ == keyword.target@ + " keyword "@ + keyword.keyword@,
        words.2@ == suffix.target@ + " suffix "@ + suffix.suffix@,
{
}

/// A copy of a rule is the same rule.
pub proof fn law_copied_rules_are_the_same(
    domains: (Domain, Domain),
    keywords: (DomainKeyword, DomainKeyword),
    suffixes: (DomainSuffix, DomainSuffix),
)
    requires
        call_ensures(Domain::clone, (&domains.0,), domains.1),
        call_ensures(DomainKeyword::clone, (&keywords.0,), keywords.1),
        call_ensures(DomainSuffix::clone, (&suffixes.0,), suffixes.1),
    ensures
        domains.1 == domains.0,
        keywords.1 == keywords.0,
        suffixes.1 == suffixes.0,
{
}

/// Two characters are the same letter if and only if they are the same once made
/// small.
proof fn lemma_same_letter(a: char, b: char)
    ensures
        same_letter(a, b) <==> ascii_lower_char(a) == ascii_lower_char(b),
{
}

/// Reading letter by letter is comparing what was made small.
proof fn lemma_reads_at(name: Seq<char>, at: int, part: Seq<char>)
    requires
        0 <= at <= name.len() - part.len(),
    ensures
        reads_at(name, at, part) <==> ascii_lower(name).subrange(at, at + part.len())
            == ascii_lower(part),
{
    let piece = ascii_lower(name).subrange(at, at + part.len());
    assert forall|i: int| 0 <= i < part.len() implies (same_letter(#[trigger] part[i], name[at + i])
        <==> piece[i] == ascii_lower(part)[i]) by {
        lemma_same_letter(part[i], name[at + i]);
    }
    if reads_at(name, at, part) {
        assert(piece =~= ascii_lower(part));
    }
    if piece == ascii_lower(part) {
        assert forall|i: int| 0 <= i < part.len() implies same_letter(
            #[trigger] part[i],
            name[at + i],
        ) by {
            assert(piece[i] == ascii_lower(part)[i]);
        }
    }
}

} // verus!
