//! A configured TUIC outbound.
use vstd::arithmetic::power2::*;
use vstd::prelude::*;
use crate::tuic::laws::law_description_keys_differ;
use crate::tuic::options::HandlerOptions;

verus! {

/// A TUIC outbound, by its configuration.
pub struct Handler {
    pub opts: HandlerOptions,
}

/// A value in the description of an outbound.
#[derive(Debug, PartialEq, Eq)]
pub enum ApiValue {
    Text(String),
    Number(u16),
    Flag(bool),
}

/// What an [`ApiValue`] says.
pub enum ApiView {
    Text(Seq<char>),
    Number(int),
    Flag(bool),
}

impl View for ApiValue {
    type V = ApiView;

    open spec fn view(&self) -> ApiView {
        match *self {
            ApiValue::Text(text) => ApiView::Text(text@),
            ApiValue::Number(number) => ApiView::Number(number as int),
            ApiValue::Flag(flag) => ApiView::Flag(flag),
        }
    }
}

/// The small hexadecimal digit of value `d`.
pub open spec fn hex_digit(d: nat) -> char {
    if d < 10 {
        ('0' as nat + d) as char
    } else {
        ('a' as nat + d - 10) as char
    }
}

/// The hexadecimal digits of a 128-bit number, the most significant first, in
/// groups of 8, 4, 4, 4 and 12 with hyphens between them.
pub open spec fn hyphenated(v: u128) -> Seq<char> {
    let digits = Seq::new(32, |k: int| hex_digit((v as nat / pow2((4 * (31 - k)) as nat)) % 16));
    digits.subrange(0, 8) + seq!['-'] + digits.subrange(8, 12) + seq!['-'] + digits.subrange(12, 16)
        + seq!['-'] + digits.subrange(16, 20) + seq!['-'] + digits.subrange(20, 32)
}

/// `uuid::Uuid::from_u128` and the `Display` of `uuid::Uuid`: the identifier in its
/// hyphenated form, with small letters.
#[verifier::external_body]
fn uuid_text(v: u128) -> (r: String)
    ensures
        r@ == hyphenated(v),
{
    uuid::Uuid::from_u128(v).to_string()
}

/// The entry `key`, where `value` is given.
pub open spec fn entry_if(given: bool, key: Seq<char>, value: ApiView) -> Seq<(Seq<char>, ApiView)> {
    if given {
        seq![(key, value)]
    } else {
        seq![]
    }
}

/// The description of an outbound, entry by entry.
pub open spec fn api_entries(opts: HandlerOptions) -> Seq<(Seq<char>, ApiView)> {
    seq![
        ("server"@, ApiView::Text(opts.server@)),
        ("port"@, ApiView::Number(opts.port as int)),
        ("uuid"@, ApiView::Text(hyphenated(opts.uuid))),
        ("password"@, ApiView::Text(opts.password@)),
        ("udp-relay-mode"@, ApiView::Text(opts.udp_relay_mode.name())),
    ] + entry_if(opts.skip_cert_verify, "skip-cert-verify"@, ApiView::Flag(true)) + entry_if(
        opts.sni is Some,
        "sni"@,
        ApiView::Text(opts.sni->0@),
    ) + entry_if(opts.disable_sni, "disable-sni"@, ApiView::Flag(true))
}

/// What a list of entries says.
pub open spec fn entries_view(entries: Seq<(String, ApiValue)>) -> Seq<(Seq<char>, ApiView)> {
    Seq::new(entries.len(), |i: int| (entries[i].0@, entries[i].1@))
}

/// Appends one entry to a description.
fn push_entry(entries: &mut Vec<(String, ApiValue)>, key: &str, value: ApiValue)
    ensures
        entries_view(final(entries)@) == entries_view(old(entries)@).push((key@, value@)),
{
    let ghost before = entries@;
    entries.push((key.to_owned(), value));
    assert(entries_view(entries@) =~= entries_view(before).push((key@, value@)));
}

impl Handler {
    /// A handler for one configured outbound.
    pub fn new(opts: HandlerOptions) -> (r: Self)
        ensures
            r.opts == opts,
    {
        Handler { opts }
    }

    /// The outbound's name.
    pub fn name(&self) -> (r: &str)
        ensures
            r@ == self.opts.name@,
    {
        self.opts.name.as_str()
    }

    /// The server that the outbound was configured with.
    pub fn server_name(&self) -> (r: Option<&str>)
        ensures
            r matches Some(name) && name@ == self.opts.server@,
    {
        Some(self.opts.server.as_str())
    }

    /// Whether the outbound relays UDP packets.
    pub fn support_udp(&self) -> (r: bool)
        ensures
            r,
    {
        true
    }

    /// The description of the outbound: its settings by name. The flags are there
    /// only where they are set, and the server name where there is one. No name
    /// occurs twice.
    pub fn as_map(&self) -> (r: Vec<(String, ApiValue)>)
        ensures
            entries_view(r@) == api_entries(self.opts),
            forall|i: int, j: int|
                0 <= i < j < r@.len() ==> (#[trigger] r@[i]).0@ != (#[trigger] r@[j]).0@,
    {
        let opts = &self.opts;
        let mut m: Vec<(String, ApiValue)> = Vec::new();
        assert(entries_view(m@) =~= seq![]);
        push_entry(&mut m, "server", ApiValue::Text(opts.server.clone()));
        push_entry(&mut m, "port", ApiValue::Number(opts.port));
        push_entry(&mut m, "uuid", ApiValue::Text(uuid_text(opts.uuid)));
        push_entry(&mut m, "password", ApiValue::Text(opts.password.clone()));
        push_entry(
            &mut m,
            "udp-relay-mode",
            ApiValue::Text(opts.udp_relay_mode.as_str().to_owned()),
        );
        if opts.skip_cert_verify {
            push_entry(&mut m, "skip-cert-verify", ApiValue::Flag(true));
        }
        if let Some(sni) = &opts.sni {
            push_entry(&mut m, "sni", ApiValue::Text(sni.clone()));
        }
        if opts.disable_sni {
            push_entry(&mut m, "disable-sni", ApiValue::Flag(true));
        }
        assert(entries_view(m@) =~= api_entries(*opts));
        proof {
            law_description_keys_differ(*opts);
            assert forall|i: int, j: int| 0 <= i < j < m@.len() implies (#[trigger] m@[i]).0@ != (
            #[trigger] m@[j]).0@ by {
                assert(entries_view(m@)[i].0 != entries_view(m@)[j].0);
            }
        }
        m
    }
}

} // verus!
