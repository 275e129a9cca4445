//! What holds of the description of an outbound.
use vstd::arithmetic::power2::*;
use vstd::prelude::*;
use crate::tuic::handler::{api_entries, entries_view, hyphenated, ApiValue, ApiView, Handler};

verus! {

/// The entry at `i` is there, and goes by `key`.
pub open spec fn goes_by(entries: Seq<(String, ApiValue)>, i: int, key: Seq<char>) -> bool {
    0 <= i < entries.len() && entries[i].0@ == key
}

/// The number that a small hexadecimal digit stands for.
pub open spec fn digit_value(c: char) -> int {
    if '0' <= c <= '9' {
        c as int - '0' as int
    } else if 'a' <= c <= 'f' {
        c as int - 'a' as int + 10
    } else {
        -1
    }
}

/// Whatever goes by a name in the description is the setting of that name, and nothing
/// goes by another name.
pub proof fn law_description_tells_the_settings(
    handler: Handler,
    r: Vec<(String, ApiValue)>,
    i: int,
)
    requires
        call_ensures(Handler::as_map, (&handler,), r),
        0 <= i < r@.len(),
    ensures
        goes_by(r@, i, "server"@) ==> (r@[i].1 matches ApiValue::Text(text) && text@
            == handler.opts.server@),
        goes_by(r@, i, "port"@) ==> (r@[i].1 matches ApiValue::Number(number) && number
            == handler.opts.port),
        goes_by(r@, i, "uuid"@) ==> (r@[i].1 matches ApiValue::Text(text) && text@ == hyphenated(
            handler.opts.uuid,
        )),
        goes_by(r@, i, "password"@) ==> (r@[i].1 matches ApiValue::Text(text) && text@
            == handler.opts.password@),
        goes_by(r@, i, "udp-relay-mode"@) ==> (r@[i].1 matches ApiValue::Text(text) && text@
            == if handler.opts.udp_relay_mode is Native {
            "native"@
        } else {
            "quic"@
        }),
        goes_by(r@, i, "skip-cert-verify"@) ==> handler.opts.skip_cert_verify && (
        r@[i].1 matches ApiValue::Flag(flag) && flag),
        goes_by(r@, i, "sni"@) ==> (handler.opts.sni matches Some(name)
            && r@[i].1 matches ApiValue::Text(text) && text@ == name@),
        goes_by(r@, i, "disable-sni"@) ==> handler.opts.disable_sni && (
        r@[i].1 matches ApiValue::Flag(flag) && flag),
        goes_by(r@, i, "server"@) || goes_by(r@, i, "port"@) || goes_by(r@, i, "uuid"@) || goes_by(
            r@,
            i,
            "password"@,
        ) || goes_by(r@, i, "udp-relay-mode"@) || goes_by(r@, i, "skip-cert-verify"@) || goes_by(
            r@,
            i,
            "sni"@,
        ) || goes_by(r@, i, "disable-sni"@),
{
    lemma_keys();
    let opts = handler.opts;
    let e = api_entries(opts);
    assert(entries_view(r@)[i] == (r@[i].0@, r@[i].1@));
    assert(e[i] == (r@[i].0@, r@[i].1@) && e.len() == r@.len());
    assert(e[0] == ("server"@, ApiView::Text(opts.server@)));
    assert(e[1] == ("port"@, ApiView::Number(opts.port as int)));
    assert(e[2] == ("uuid"@, ApiView::Text(hyphenated(opts.uuid))));
    assert(e[3] == ("password"@, ApiView::Text(opts.password@)));
    assert(e[4] == ("udp-relay-mode"@, ApiView::Text(opts.udp_relay_mode.name())));
    let sni_at: int = if opts.skip_cert_verify { 6 } else { 5 };
    let disable_at: int = if opts.sni is Some { sni_at + 1 } else { sni_at };
    if opts.skip_cert_verify {
        assert(e[5] == ("skip-cert-verify"@, ApiView::Flag(true)));
    }
    if opts.sni is Some {
        assert(e[sni_at] == ("sni"@, ApiView::Text(opts.sni->0@)));
    }
    if opts.disable_sni {
        assert(e[disable_at] == ("disable-sni"@, ApiView::Flag(true)));
    }
    assert(e.len() == if opts.disable_sni { disable_at + 1 } else { disable_at });
    assert(i == 0 || i == 1 || i == 2 || i == 3 || i == 4 || (opts.skip_cert_verify && i == 5) || (
    opts.sni is Some && i == sni_at) || (opts.disable_sni && i == disable_at));
}

/// The five settings that every outbound has are in its description; each flag if and
/// only if it is set, and the name to ask for if and only if there is one. Nothing is
/// there twice.
pub proof fn law_description_is_complete(handler: Handler, r: Vec<(String, ApiValue)>)
    requires
        call_ensures(Handler::as_map, (&handler,), r),
    ensures
        exists|i: int| #[trigger] goes_by(r@, i, "server"@),
        exists|i: int| #[trigger] goes_by(r@, i, "port"@),
        exists|i: int| #[trigger] goes_by(r@, i, "uuid"@),
        exists|i: int| #[trigger] goes_by(r@, i, "password"@),
        exists|i: int| #[trigger] goes_by(r@, i, "udp-relay-mode"@),
        (exists|i: int| #[trigger] goes_by(r@, i, "skip-cert-verify"@))
            <==> handler.opts.skip_cert_verify,
        (exists|i: int| #[trigger] goes_by(r@, i, "sni"@)) <==> handler.opts.sni is Some,
        (exists|i: int| #[trigger] goes_by(r@, i, "disable-sni"@)) <==> handler.opts.disable_sni,
        forall|i: int, j: int|
            0 <= i < j < r@.len() ==> (#[trigger] r@[i]).0@ != (#[trigger] r@[j]).0@,
{
    let opts = handler.opts;
    let entries = api_entries(opts);
    assert(entries_view(r@) == entries);
    assert(entries.len() == r@.len());
    assert forall|i: int| 0 <= i < r@.len() implies entries[i].0 == (#[trigger] r@[i]).0@ by {
        assert(entries_view(r@)[i].0 == r@[i].0@);
    }
    assert(goes_by(r@, 0, "server"@));
    assert(goes_by(r@, 1, "port"@));
    assert(goes_by(r@, 2, "uuid"@));
    assert(goes_by(r@, 3, "password"@));
    assert(goes_by(r@, 4, "udp-relay-mode"@));
    let sni_at: int = if opts.skip_cert_verify { 6 } else { 5 };
    let disable_at: int = if opts.sni is Some { sni_at + 1 } else { sni_at };
    if opts.skip_cert_verify {
        assert(goes_by(r@, 5, "skip-cert-verify"@));
    }
    if opts.sni is Some {
        assert(goes_by(r@, sni_at, "sni"@));
    }
    if opts.disable_sni {
        assert(goes_by(r@, disable_at, "disable-sni"@));
    }
    assert forall|i: int| 0 <= i < r@.len() implies (#[trigger] goes_by(
        r@,
        i,
        "skip-cert-verify"@,
    ) ==> opts.skip_cert_verify) && (goes_by(r@, i, "sni"@) ==> opts.sni is Some) && (goes_by(
        r@,
        i,
        "disable-sni"@,
    ) ==> opts.disable_sni) by {
        law_description_tells_the_settings(handler, r, i);
    }
    if exists|i: int| #[trigger] goes_by(r@, i, "sni"@) {
        let i = choose|i: int| #[trigger] goes_by(r@, i, "sni"@);
        law_description_tells_the_settings(handler, r, i);
    }
    if exists|i: int| #[trigger] goes_by(r@, i, "disable-sni"@) {
        let i = choose|i: int| #[trigger] goes_by(r@, i, "disable-sni"@);
        law_description_tells_the_settings(handler, r, i);
    }
}

/// An identifier is written with 32 small hexadecimal digits, the most significant
/// first, and a hyphen after the eighth, twelfth, sixteenth and twentieth.
pub proof fn law_identifier_is_written_in_digits(v: u128, k: int)
    requires
        0 <= k < 32,
    ensures
        hyphenated(v).len() == 36,
        hyphenated(v)[8] == '-' && hyphenated(v)[13] == '-',
        hyphenated(v)[18] == '-' && hyphenated(v)[23] == '-',
        ({
            let hyphens: int = if k < 8 {
                0
            } else if k < 12 {
                1
            } else if k < 16 {
                2
            } else if k < 20 {
                3
            } else {
                4
            };
            digit_value(hyphenated(v)[k + hyphens]) == (v as nat / pow2((4 * (31 - k)) as nat)) % 16
        }),
{
}

/// No two names of settings are the same.
proof fn lemma_keys()
    ensures
        "server"@.len() == 6,
        "port"@.len() == 4,
        "uuid"@.len() == 4,
        "port"@[0] != "uuid"@[0],
        "password"@.len() == 8,
        "udp-relay-mode"@.len() == 14,
        "skip-cert-verify"@.len() == 16,
        "sni"@.len() == 3,
        "disable-sni"@.len() == 11,
{
    reveal_strlit("server");
    reveal_strlit("port");
    reveal_strlit("uuid");
    reveal_strlit("password");
    reveal_strlit("udp-relay-mode");
    reveal_strlit("skip-cert-verify");
    reveal_strlit("sni");
    reveal_strlit("disable-sni");
}

} // verus!
