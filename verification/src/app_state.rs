//! Application state of the connection server: the settings it was started
//! with and the Fernet keys that encrypt endpoint URLs.
//!
//! The crypto key setting is a bracketed, comma-separated list of Fernet
//! keys, such as `[key1, key2]`.
use vstd::prelude::*;

use fernet::{Fernet, MultiFernet};

use crate::text::{
    chars_of, is_white_space, lemma_trim_ignores_surrounding_space, trim, trimmed_range,
};

verus! {

#[verifier::external_type_specification]
#[verifier::external_body]
pub struct ExFernet(Fernet);

#[verifier::external_type_specification]
#[verifier::external_body]
pub struct ExMultiFernet(MultiFernet);

/// What `fernet::Fernet::new` makes of `key`: the 32 key bytes that the
/// URL-safe base64 text decodes to, or `None` where it refuses the text.
pub uninterp spec fn fernet_key(key: Seq<char>) -> Option<Seq<u8>>;

/// The key bytes a `Fernet` holds: its signing key, then its encryption
/// key.
pub uninterp spec fn fernet_contents(f: Fernet) -> Seq<u8>;

/// The keys a `MultiFernet` holds, in order; the first one encrypts.
pub uninterp spec fn multi_fernet_contents(m: MultiFernet) -> Seq<Seq<u8>>;

/// Calls `fernet::Fernet::new`, which decodes `key` as URL-safe base64 and
/// returns a key when that gives 32 bytes (the first 16 sign, the last 16
/// encrypt), and `None` otherwise. The contract claims that the answer
/// depends on the text of `key` alone.
#[verifier::external_body]
fn fernet_new(key: &str) -> (r: Option<Fernet>)
    ensures
        match r {
            Some(f) => fernet_key(key@) == Some(fernet_contents(f)) && fernet_contents(f).len()
                == 32,
            None => fernet_key(key@) is None,
        },
{
    Fernet::new(key)
}

/// The key bytes of each of `fs`, in order.
pub open spec fn fernet_bytes(fs: Seq<Fernet>) -> Seq<Seq<u8>> {
    fs.map_values(|f: Fernet| fernet_contents(f))
}

/// Calls `fernet::MultiFernet::new`, which asserts that the list of keys is
/// not empty and keeps the keys in their order.
#[verifier::external_body]
fn multi_fernet_new(keys: Vec<Fernet>) -> (r: MultiFernet)
    requires
        keys.len() > 0,
    ensures
        multi_fernet_contents(r) == fernet_bytes(keys@),
{
    MultiFernet::new(keys)
}

/// The prefix of the environment variables that configure the server.
pub const ENV_PREFIX: &'static str = "autoconnect";

/// Settings of the connection server that the application state reads.
#[derive(Debug, Clone)]
pub struct Settings {
    /// The listening port.
    pub port: u16,
    /// Bracketed, comma-separated list of Fernet keys.
    pub crypto_key: String,
    /// Host and port of the statsd server.
    pub statsd_host: Option<String>,
    pub statsd_port: u16,
    /// Data source name of the message store and its extra settings.
    pub db_dsn: Option<String>,
    pub db_settings: String,
    /// URL under which other nodes reach this node's router.
    pub router_url: String,
    /// URL of the push endpoint server.
    pub endpoint_url: String,
}

/// Errors while building the application state.
#[derive(Debug)]
pub enum AppStateError {
    /// A setting is malformed; the text names it.
    Config(String),
}

/// The application state that `from_settings` builds.
pub struct AppState {
    /// Encryption of the endpoint URLs, with every configured key.
    pub fernet: MultiFernet,
    pub settings: Settings,
    pub router_url: String,
    pub endpoint_url: String,
}

/// Whether `s` starts with `[` and ends with `]`.
pub open spec fn is_bracketed(s: Seq<char>) -> bool {
    s.len() > 0 && s[0] == '[' && s.last() == ']'
}

/// The pieces of `s` between commas, as `str::split(',')` gives them: one
/// piece more than `s` has commas.
pub open spec fn split_commas(s: Seq<char>) -> Seq<Seq<char>>
    decreases s.len(),
{
    if s.len() == 0 {
        seq![Seq::empty()]
    } else {
        let pieces = split_commas(s.drop_last());
        if s.last() == ',' {
            pieces.push(Seq::empty())
        } else {
            pieces.update(pieces.len() - 1, pieces.last().push(s.last()))
        }
    }
}

/// The Fernet keys that the crypto key setting `s` lists: `None` when `s`
/// is not bracketed, else the trimmed comma-separated pieces between the
/// brackets.
pub open spec fn crypto_key_pieces(s: Seq<char>) -> Option<Seq<Seq<char>>> {
    if is_bracketed(s) && s.len() >= 2 {
        Some(split_commas(s.subrange(1, s.len() - 1)).map_values(|p: Seq<char>| trim(p)))
    } else {
        None
    }
}

/// The texts of `keys`.
pub open spec fn string_views(keys: Seq<String>) -> Seq<Seq<char>> {
    keys.map_values(|k: String| k@)
}

/// Whether Fernet accepts every key in `keys`.
pub open spec fn all_keys_accepted(keys: Seq<Seq<char>>) -> bool {
    forall|i: int| 0 <= i < keys.len() ==> (#[trigger] fernet_key(keys[i])) is Some
}

/// The key bytes that Fernet decodes from each of `keys`, in order.
pub open spec fn key_bytes_of(keys: Seq<Seq<char>>) -> Seq<Seq<u8>> {
    keys.map_values(|k: Seq<char>| fernet_key(k)->Some_0)
}

/// Whether every key that the crypto key setting `s` lists is accepted.
pub open spec fn crypto_key_usable(s: Seq<char>) -> bool {
    crypto_key_pieces(s) matches Some(keys) ==> all_keys_accepted(keys)
}

/// The error text for a malformed crypto key setting.
pub open spec fn invalid_crypto_key_message() -> Seq<char> {
    "Invalid autoconnect_CRYPTO_KEY"@
}

pub broadcast proof fn lemma_split_commas_nonempty(s: Seq<char>)
    ensures
        #[trigger] split_commas(s).len() >= 1,
    decreases s.len(),
{
    if s.len() > 0 {
        lemma_split_commas_nonempty(s.drop_last());
    }
}

/// The text between the brackets of a crypto key setting.
pub open spec fn bracket_inner(s: Seq<char>) -> Seq<char> {
    s.subrange(1, s.len() - 1)
}

/// Spacing around the listed keys does not matter: when each
/// comma-separated piece of the setting `s2` is the matching piece of `s1`
/// with white space before (`before[i]`) and after (`after[i]`) it, both
/// settings list the same keys, so `from_settings` gives both the same
/// Fernet keys in the same order.
pub proof fn lemma_crypto_key_spacing(
    s1: Seq<char>,
    s2: Seq<char>,
    before: Seq<Seq<char>>,
    after: Seq<Seq<char>>,
)
    requires
        is_bracketed(s1) && s1.len() >= 2,
        is_bracketed(s2) && s2.len() >= 2,
        split_commas(bracket_inner(s1)).len() == split_commas(bracket_inner(s2)).len(),
        before.len() == split_commas(bracket_inner(s1)).len(),
        after.len() == split_commas(bracket_inner(s1)).len(),
        forall|i: int, j: int|
            0 <= i < before.len() && 0 <= j < before[i].len() ==> is_white_space(
                #[trigger] before[i][j],
            ),
        forall|i: int, j: int|
            0 <= i < after.len() && 0 <= j < after[i].len() ==> is_white_space(
                #[trigger] after[i][j],
            ),
        forall|i: int|
            0 <= i < before.len() ==> #[trigger] split_commas(bracket_inner(s2))[i] == before[i]
                + split_commas(bracket_inner(s1))[i] + after[i],
    ensures
        crypto_key_pieces(s1) == crypto_key_pieces(s2),
        key_bytes_of(crypto_key_pieces(s1)->Some_0) == key_bytes_of(crypto_key_pieces(s2)->Some_0),
{
    let q1 = split_commas(bracket_inner(s1));
    let q2 = split_commas(bracket_inner(s2));
    assert forall|i: int| 0 <= i < q1.len() implies trim(#[trigger] q1[i]) == trim(q2[i]) by {
        assert forall|j: int| 0 <= j < before[i].len() implies is_white_space(
            #[trigger] before[i][j],
        ) by {}
        assert forall|j: int| 0 <= j < after[i].len() implies is_white_space(
            #[trigger] after[i][j],
        ) by {}
        lemma_trim_ignores_surrounding_space(before[i], q1[i], after[i]);
    }
    let m1 = q1.map_values(|p: Seq<char>| trim(p));
    let m2 = q2.map_values(|p: Seq<char>| trim(p));
    assert(m1 =~= m2);
}

/// Parses the crypto key setting into its list of keys.
pub fn crypto_keys(crypto_key: &str) -> (r: Result<Vec<String>, AppStateError>)
    ensures
        match crypto_key_pieces(crypto_key@) {
            None => r matches Err(AppStateError::Config(m)) && m@ == invalid_crypto_key_message(),
            Some(keys) => r matches Ok(v) && v.len() == keys.len() && (forall|i: int|
                0 <= i < v.len() ==> (#[trigger] v[i])@ == keys[i]),
        },
{
    broadcast use lemma_split_commas_nonempty;

    let cs = chars_of(crypto_key);
    let n = cs.len();
    if !(n >= 2 && cs[0] == '[' && cs[n - 1] == ']') {
        proof {
            reveal_strlit("Invalid autoconnect_CRYPTO_KEY");
        }
        return Err(AppStateError::Config("Invalid autoconnect_CRYPTO_KEY".to_owned()));
    }
    let ghost inner = cs@.subrange(1, n - 1);
    let mut keys: Vec<String> = Vec::new();
    let mut start: usize = 1;
    let mut i: usize = 1;
    while i < n - 1
        invariant
            2 <= n == cs.len(),
            inner == cs@.subrange(1, n - 1),
            1 <= start <= i <= n - 1,
            ({
                let pieces = split_commas(inner.take(i - 1));
                &&& keys.len() == pieces.len() - 1
                &&& forall|j: int| 0 <= j < keys.len() ==> (#[trigger] keys[j])@ == trim(pieces[j])
                &&& pieces.last() == cs@.subrange(start as int, i as int)
            }),
        decreases n - 1 - i,
    {
        let ghost old_pieces = split_commas(inner.take(i - 1));
        assert(inner.take(i as int).drop_last() =~= inner.take(i - 1));
        assert(inner.take(i as int).last() == cs@[i as int]);
        if cs[i] == ',' {
            let k = trimmed_range(&cs, start, i);
            keys.push(k);
            start = i + 1;
            assert(cs@.subrange(start as int, i + 1) =~= Seq::<char>::empty());
        } else {
            assert(cs@.subrange(start as int, i + 1) =~= cs@.subrange(start as int, i as int).push(
                cs@[i as int],
            ));
        }
        i = i + 1;
    }
    let k = trimmed_range(&cs, start, n - 1);
    keys.push(k);
    proof {
        assert(inner.take(n - 2) =~= inner);
        let pieces = split_commas(inner);
        let mapped = pieces.map_values(|p: Seq<char>| trim(p));
        assert(crypto_key_pieces(crypto_key@) == Some(mapped));
        assert forall|j: int| 0 <= j < keys.len() implies (#[trigger] keys[j])@ == mapped[j] by {}
    }
    Ok(keys)
}

/// Makes a Fernet key for each entry of `keys`; `None` when Fernet rejects
/// one of them.
pub fn fernets_of(keys: &Vec<String>) -> (r: Option<Vec<Fernet>>)
    ensures
        r is Some <==> all_keys_accepted(string_views(keys@)),
        r matches Some(v) ==> v.len() == keys.len() && fernet_bytes(v@) == key_bytes_of(
            string_views(keys@),
        ),
{
    let mut out: Vec<Fernet> = Vec::new();
    let mut i: usize = 0;
    while i < keys.len()
        invariant
            0 <= i <= keys.len(),
            out.len() == i,
            forall|j: int| 0 <= j < i ==> (#[trigger] fernet_key(keys@[j]@)) == Some(
                fernet_contents(out@[j]),
            ),
        decreases keys.len() - i,
    {
        match fernet_new(keys[i].as_str()) {
            Some(f) => out.push(f),
            None => {
                assert(string_views(keys@)[i as int] == keys@[i as int]@);
                return None;
            },
        }
        i = i + 1;
    }
    assert forall|j: int| 0 <= j < keys@.len() implies (#[trigger] fernet_key(
        string_views(keys@)[j],
    )) is Some by {
        assert(string_views(keys@)[j] == keys@[j]@);
        assert(fernet_key(keys@[j]@) == Some(fernet_contents(out@[j])));
    }
    assert forall|j: int| 0 <= j < keys@.len() implies #[trigger] fernet_bytes(out@)[j]
        == key_bytes_of(string_views(keys@))[j] by {
        assert(string_views(keys@)[j] == keys@[j]@);
        assert(fernet_key(keys@[j]@) == Some(fernet_contents(out@[j])));
    }
    assert(fernet_bytes(out@) =~= key_bytes_of(string_views(keys@)));
    Some(out)
}

impl AppState {
    /// Builds the application state from `settings`: an error when the
    /// crypto key setting is not bracketed, else a state that keeps the
    /// settings and their URLs and holds every listed key, in order (the
    /// first one encrypts).
    pub fn from_settings(settings: Settings) -> (r: Result<AppState, AppStateError>)
        requires
            crypto_key_usable(settings.crypto_key@),
        ensures
            match crypto_key_pieces(settings.crypto_key@) {
                None => r matches Err(AppStateError::Config(m)) && m@
                    == invalid_crypto_key_message(),
                Some(keys) => r matches Ok(st) && st.settings == settings && st.router_url@
                    == settings.router_url@ && st.endpoint_url@ == settings.endpoint_url@
                    && multi_fernet_contents(st.fernet) == key_bytes_of(keys),
            },
    {
        let keys = match crypto_keys(settings.crypto_key.as_str()) {
            Ok(keys) => keys,
            Err(e) => return Err(e),
        };
        let ghost pieces = crypto_key_pieces(settings.crypto_key@)->Some_0;
        assert(string_views(keys@) =~= pieces);
        let fernets = match fernets_of(&keys) {
            Some(f) => f,
            None => vstd::pervasive::unreached(),
        };
        proof {
            lemma_split_commas_nonempty(
                settings.crypto_key@.subrange(1, settings.crypto_key@.len() - 1),
            );
        }
        let fernet = multi_fernet_new(fernets);
        let router_url = settings.router_url.clone();
        let endpoint_url = settings.endpoint_url.clone();
        Ok(AppState { fernet, settings, router_url, endpoint_url })
    }

    /// Builds the application state where Fernet accepts every listed key,
    /// as `from_settings` does; `None` where it rejects one of them.
    pub fn try_from_settings(settings: Settings) -> (r: Option<Result<AppState, AppStateError>>)
        ensures
            match crypto_key_pieces(settings.crypto_key@) {
                None => r matches Some(Err(AppStateError::Config(m)))
                    && m@ == invalid_crypto_key_message(),
                Some(keys) => {
                    &&& (r is Some <==> all_keys_accepted(keys))
                    &&& r matches Some(res) ==> res matches Ok(st) && st.settings == settings
                        && st.router_url@ == settings.router_url@ && st.endpoint_url@
                        == settings.endpoint_url@ && multi_fernet_contents(st.fernet)
                        == key_bytes_of(keys)
                },
            },
    {
        let keys = match crypto_keys(settings.crypto_key.as_str()) {
            Ok(keys) => keys,
            Err(e) => return Some(Err(e)),
        };
        let ghost pieces = crypto_key_pieces(settings.crypto_key@)->Some_0;
        assert(string_views(keys@) =~= pieces);
        if fernets_of(&keys).is_none() {
            return None;
        }
        Some(Self::from_settings(settings))
    }
}

} // verus!
