use clash_lib::rules::domain::Domain;
use clash_lib::rules::domain_keyword::DomainKeyword;
use clash_lib::rules::domain_suffix::DomainSuffix;
use clash_lib::rules::RuleMatcher;
use clash_lib::session::{IpAddr, Ipv4Addr, Session, SocketAddr, SocksAddr};

#[test]
fn test_domain_case_insensitive() {
    let rule = Domain {
        domain: "example.com".to_string(),
        target: "DIRECT".to_string(),
    };

    let sess_lower = Session {
        destination: SocksAddr::Domain("example.com".to_string(), 80),
        ..Default::default()
    };
    assert!(rule.apply(&sess_lower));

    let sess_upper = Session {
        destination: SocksAddr::Domain("EXAMPLE.COM".to_string(), 80),
        ..Default::default()
    };
    assert!(rule.apply(&sess_upper));

    let sess_mixed = Session {
        destination: SocksAddr::Domain("ExAmPlE.cOm".to_string(), 80),
        ..Default::default()
    };
    assert!(rule.apply(&sess_mixed));

    let sess_other = Session {
        destination: SocksAddr::Domain("other.com".to_string(), 80),
        ..Default::default()
    };
    assert!(!rule.apply(&sess_other));
}

#[test]
fn test_domain_keyword_case_insensitive() {
    let rule = DomainKeyword {
        keyword: "google".to_string(),
        target: "PROXY".to_string(),
    };

    let sess_lower = Session {
        destination: SocksAddr::Domain("www.google.com".to_string(), 443),
        ..Default::default()
    };
    assert!(rule.apply(&sess_lower));

    let sess_upper = Session {
        destination: SocksAddr::Domain("WWW.GOOGLE.COM".to_string(), 443),
        ..Default::default()
    };
    assert!(rule.apply(&sess_upper));

    let sess_mixed = Session {
        destination: SocksAddr::Domain("news.GooGle.com.hk".to_string(), 443),
        ..Default::default()
    };
    assert!(rule.apply(&sess_mixed));

    let sess_other = Session {
        destination: SocksAddr::Domain("www.youtube.com".to_string(), 443),
        ..Default::default()
    };
    assert!(!rule.apply(&sess_other));
}

#[test]
fn test_domain_suffix_case_insensitive() {
    let rule = DomainSuffix {
        suffix: "google.com".to_string(),
        target: "PROXY".to_string(),
    };

    let sess_exact = Session {
        destination: SocksAddr::Domain("google.com".to_string(), 443),
        ..Default::default()
    };
    assert!(rule.apply(&sess_exact));

    let sess_exact_upper = Session {
        destination: SocksAddr::Domain("GOOGLE.COM".to_string(), 443),
        ..Default::default()
    };
    assert!(rule.apply(&sess_exact_upper));

    let sess_sub_mixed = Session {
        destination: SocksAddr::Domain("Mail.Google.Com".to_string(), 443),
        ..Default::default()
    };
    assert!(rule.apply(&sess_sub_mixed));

    let sess_sub_upper = Session {
        destination: SocksAddr::Domain("WWW.GOOGLE.COM".to_string(), 443),
        ..Default::default()
    };
    assert!(rule.apply(&sess_sub_upper));

    let sess_fake = Session {
        destination: SocksAddr::Domain("fakegoogle.com".to_string(), 443),
        ..Default::default()
    };
    assert!(!rule.apply(&sess_fake));
}

fn to_domain(name: &str) -> Session {
    Session {
        destination: SocksAddr::Domain(name.to_string(), 443),
        ..Default::default()
    }
}

fn domain(text: &str) -> Domain {
    Domain { domain: text.to_string(), target: "DIRECT".to_string() }
}

fn keyword(text: &str) -> DomainKeyword {
    DomainKeyword { keyword: text.to_string(), target: "PROXY".to_string() }
}

fn suffix(text: &str) -> DomainSuffix {
    DomainSuffix { suffix: text.to_string(), target: "PROXY".to_string() }
}

#[test]
fn ip_destinations_are_never_covered() {
    let sess = Session {
        destination: SocksAddr::Ip(SocketAddr::new(IpAddr::V4(Ipv4Addr { bits: 0x7f00_0001 }), 80)),
        ..Default::default()
    };
    assert!(!domain("127.0.0.1").apply(&sess));
    assert!(!keyword("").apply(&sess));
    assert!(!suffix("").apply(&sess));
}

#[test]
fn default_session_goes_to_an_ip() {
    let sess = Session::default();
    assert!(!keyword("").apply(&sess));
    assert!(sess.so_mark.is_none());
    assert!(sess.iface.is_none());
    let any = SocketAddr::new(IpAddr::V4(Ipv4Addr { bits: 0 }), 0);
    assert!(sess.source == any);
    assert!(matches!(sess.destination, SocksAddr::Ip(addr) if addr == any));
}

#[test]
fn rules_report_themselves() {
    let d = domain("Example.com");
    assert_eq!(d.target(), "DIRECT");
    assert_eq!(d.payload(), "Example.com");
    assert_eq!(d.kind_name(), "Domain");
    assert_eq!(d.to_string(), "DIRECT domain Example.com");

    let k = keyword("Google");
    assert_eq!(k.target(), "PROXY");
    assert_eq!(k.payload(), "Google");
    assert_eq!(k.kind_name(), "DomainKeyword");
    assert_eq!(k.to_string(), "PROXY keyword Google");

    let s = suffix("google.com");
    assert_eq!(s.target(), "PROXY");
    assert_eq!(s.payload(), "google.com");
    assert_eq!(s.kind_name(), "DomainSuffix");
    assert_eq!(s.to_string(), "PROXY suffix google.com");
}

#[test]
fn cloned_rules_do_the_same() {
    assert!(domain("a.b").clone().apply(&to_domain("A.B")));
    assert!(keyword("a").clone().apply(&to_domain("BAB")));
    assert!(suffix("a.b").clone().apply(&to_domain("x.A.B")));
}

#[test]
fn case_folding_is_ascii_only() {
    assert!(domain("stra\u{df}e.de").apply(&to_domain("STRA\u{df}E.DE")));
    assert!(!domain("\u{e4}.de").apply(&to_domain("\u{c4}.de")));
    assert!(!keyword("\u{e4}").apply(&to_domain("x\u{c4}x")));
    assert!(!suffix("\u{e4}.de").apply(&to_domain("www.\u{c4}.de")));
}

#[test]
fn keyword_edges() {
    assert!(keyword("").apply(&to_domain("anything")));
    assert!(keyword("").apply(&to_domain("")));
    assert!(keyword("ABC").apply(&to_domain("abc")));
    assert!(!keyword("abcd").apply(&to_domain("abc")));
    assert!(keyword(".CO").apply(&to_domain("www.google.com")));
    assert!(!keyword("gogle").apply(&to_domain("www.google.com")));
}

#[test]
fn suffix_edges() {
    let rule = suffix("google.com");
    assert!(!rule.apply(&to_domain("com")));
    assert!(!rule.apply(&to_domain("")));
    assert!(rule.apply(&to_domain(".google.com")));
    assert!(rule.apply(&to_domain("a.b.c.Google.Com")));
    assert!(!rule.apply(&to_domain("google.com.")));
    assert!(!rule.apply(&to_domain("google.com.hk")));
    assert!(suffix("").apply(&to_domain("")));
    assert!(suffix("").apply(&to_domain("a.")));
    assert!(!suffix("").apply(&to_domain("a")));
}

#[test]
fn suffix_with_wide_characters() {
    assert!(suffix("\u{4f8b}.com").apply(&to_domain("www.\u{4f8b}.COM")));
    assert!(!suffix("com").apply(&to_domain("\u{4f8b}com")));
    assert!(suffix("com").apply(&to_domain("\u{1f600}.com")));
    // The byte where a full stop would have to stand lies inside a character.
    assert!(!suffix("ab").apply(&to_domain("\u{1f600}xy")));
    assert!(!suffix("abc").apply(&to_domain("\u{4f8b}\u{4f8b}")));
}

#[test]
fn rules_with_one_text_widen() {
    for name in ["google.com", "GOOGLE.com", "mail.google.com", "fakegoogle.com", "google.com.hk", "x"] {
        let sess = to_domain(name);
        let d = domain("google.com").apply(&sess);
        let s = suffix("google.com").apply(&sess);
        let k = keyword("google.com").apply(&sess);
        assert!(!d || s);
        assert!(!s || k);
    }
    assert!(!domain("google.com").apply(&to_domain("mail.google.com")));
    assert!(!suffix("google.com").apply(&to_domain("fakegoogle.com")));
    assert!(keyword("google.com").apply(&to_domain("fakegoogle.com")));
}

#[test]
fn suffixes_nest() {
    assert!(suffix("com").apply(&to_domain("google.com")));
    assert!(suffix("google.com").apply(&to_domain("mail.google.com")));
    assert!(suffix("com").apply(&to_domain("mail.google.com")));
}

#[test]
fn keywords_nest() {
    assert!(keyword("GOO").apply(&to_domain("google")));
    assert!(keyword("google").apply(&to_domain("mail.Google.com")));
    assert!(keyword("goo").apply(&to_domain("mail.Google.com")));
}

#[test]
fn keyword_covers_longer_names() {
    let rule = keyword("oogl");
    assert!(rule.apply(&to_domain("google")));
    assert!(rule.apply(&to_domain("www.google.example")));
    assert!(!rule.apply(&to_domain("goo.gle")));
}
