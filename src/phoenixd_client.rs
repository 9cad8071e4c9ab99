//! Credentials for the phoenixd HTTP API, and the request that mints an
//! invoice there.

use vstd::prelude::*;
use vstd::string::StringExecFns;
use crate::text::{chars_of, decimal, decimal_string, split, split_ranges, string_of_range, trim, trim_range};

verus! {

/// Options for reaching the phoenixd node.
pub struct PhoenixdSubOpts {
    /// Path of phoenixd's configuration file; by default
    /// `$HOME/.phoenix/phoenix.conf`.
    pub phoenixd_config: Option<String>,
    /// Base URL of the node, `http://127.0.0.1` by default.
    pub phoenixd_url: Option<String>,
    /// Port of the node, `9740` by default.
    pub phoenixd_port: Option<String>,
    /// User name for the node's API.
    pub phoenixd_username: Option<String>,
    /// Password for the node's API; when absent it is read from the
    /// configuration file.
    pub phoenixd_password: Option<String>,
}

/// User name and password for HTTP basic authentication.
pub struct AuthCredentials {
    pub username: String,
    pub password: String,
}

/// Why no credentials could be resolved.
#[derive(PartialEq, Eq, Structural, Clone, Copy, Debug)]
pub enum AuthError {
    /// The home directory is not known.
    MissingHome,
    /// The configuration file could not be read.
    ConfigUnreadable,
    /// The configuration file has no `http-password` entry.
    MissingPassword,
}

/// The user name used when none is configured, and the key under which the
/// configuration file holds the password.
pub open spec fn password_key() -> Seq<char> {
    "http-password"@
}

/// The key/value entries of a sequence of lines: each line holding exactly
/// one `=` (two pieces around it) gives its two sides, trimmed; others give
/// nothing.
pub open spec fn config_entries_of(lines: Seq<Seq<char>>) -> Seq<(Seq<char>, Seq<char>)>
    decreases lines.len(),
{
    if lines.len() == 0 {
        seq![]
    } else {
        let init = config_entries_of(lines.drop_last());
        let parts = split(lines.last(), '=');
        if parts.len() == 2 {
            init.push((trim(parts[0]), trim(parts[1])))
        } else {
            init
        }
    }
}

/// The entries of a configuration file: its trimmed content cut into lines.
pub open spec fn config_entries(content: Seq<char>) -> Seq<(Seq<char>, Seq<char>)> {
    config_entries_of(split(trim(content), '\n'))
}

/// The value of the last entry whose key is `key`.
pub open spec fn last_value(entries: Seq<(Seq<char>, Seq<char>)>, key: Seq<char>) -> Option<
    Seq<char>,
>
    decreases entries.len(),
{
    if entries.len() == 0 {
        None
    } else if entries.last().0 == key {
        Some(entries.last().1)
    } else {
        last_value(entries.drop_last(), key)
    }
}

pub open spec fn entries_view(v: Seq<(String, String)>) -> Seq<(Seq<char>, Seq<char>)> {
    v.map_values(|p: (String, String)| (p.0@, p.1@))
}

pub open spec fn opt_view(o: Option<String>) -> Option<Seq<char>> {
    match o {
        Some(s) => Some(s@),
        None => None,
    }
}

pub open spec fn opt_str_view(o: Option<&str>) -> Option<Seq<char>> {
    match o {
        Some(s) => Some(s@),
        None => None,
    }
}

/// The path of the configuration file, given the home directory.
pub open spec fn config_path(opts: PhoenixdSubOpts, home: Seq<char>) -> Seq<char> {
    match opts.phoenixd_config {
        Some(p) => p@,
        None => home + "/.phoenix/phoenix.conf"@,
    }
}

/// The credentials that `opts` resolve to, given the home directory and the
/// content of the configuration file (`None` where it could not be read), as
/// user name and password.
pub open spec fn resolution(
    opts: PhoenixdSubOpts,
    home: Option<Seq<char>>,
    content: Option<Seq<char>>,
) -> Result<(Seq<char>, Seq<char>), AuthError> {
    match opts.phoenixd_password {
        Some(p) => Ok(
            (
                match opts.phoenixd_username {
                    Some(u) => u@,
                    None => password_key(),
                },
                p@,
            ),
        ),
        None => if home is None {
            Err(AuthError::MissingHome)
        } else {
            match content {
                None => Err(AuthError::ConfigUnreadable),
                Some(c) => match last_value(config_entries(c), password_key()) {
                    Some(v) => Ok((password_key(), v)),
                    None => Err(AuthError::MissingPassword),
                },
            }
        },
    }
}

/// Reads the `key=value` lines of a configuration file, in order.
pub fn parse_config(content: &str) -> (r: Vec<(String, String)>)
    ensures
        entries_view(r@) == config_entries(content@),
{
    let v = chars_of(content);
    let len = v.len();
    let (lo, hi) = trim_range(&v, 0, len);
    proof {
        assert(v@.subrange(0, len as int) =~= v@);
    }
    let lines = split_ranges(&v, lo, hi, '\n');
    let ghost all = split(v@.subrange(lo as int, hi as int), '\n');
    let mut r: Vec<(String, String)> = Vec::new();
    let mut k: usize = 0;
    proof {
        assert(all.take(0) =~= Seq::<Seq<char>>::empty());
        assert(entries_view(r@) =~= seq![]);
    }
    while k < lines.len()
        invariant
            k <= lines.len() == all.len(),
            all == split(v@.subrange(lo as int, hi as int), '\n'),
            forall|j: int|
                0 <= j < lines.len() ==> #[trigger] lines[j].0 <= lines[j].1 <= v.len()
                    && v@.subrange(lines[j].0 as int, lines[j].1 as int) == all[j],
            entries_view(r@) == config_entries_of(all.take(k as int)),
        decreases lines.len() - k,
    {
        let (a, b) = lines[k];
        let parts = split_ranges(&v, a, b, '=');
        proof {
            assert(all.take(k + 1).drop_last() =~= all.take(k as int));
            assert(all.take(k + 1).last() == v@.subrange(a as int, b as int));
        }
        if parts.len() == 2 {
            let (ka, kb) = trim_range(&v, parts[0].0, parts[0].1);
            let (va, vb) = trim_range(&v, parts[1].0, parts[1].1);
            let key = string_of_range(&v, ka, kb);
            let value = string_of_range(&v, va, vb);
            let ghost before = r@;
            r.push((key, value));
            proof {
                assert(entries_view(r@) =~= entries_view(before).push(
                    (v@.subrange(ka as int, kb as int), v@.subrange(va as int, vb as int)),
                ));
            }
        }
        k = k + 1;
    }
    proof {
        assert(all.take(k as int) =~= all);
    }
    r
}

/// The value of the last entry whose key is `key`.
pub fn lookup_config(entries: &Vec<(String, String)>, key: &str) -> (r: Option<String>)
    ensures
        opt_view(r) == last_value(entries_view(entries@), key@),
{
    let ghost all = entries_view(entries@);
    let wanted = String::from_str(key);
    let mut i = entries.len();
    proof {
        assert(all.take(i as int) =~= all);
    }
    while i > 0
        invariant
            i <= entries.len(),
            all == entries_view(entries@),
            wanted@ == key@,
            last_value(all, key@) == last_value(all.take(i as int), key@),
        decreases i,
    {
        proof {
            assert(all.take(i as int).drop_last() =~= all.take(i - 1));
        }
        if entries[i - 1].0 == wanted {
            return Some(entries[i - 1].1.clone());
        }
        i = i - 1;
    }
    None
}

/// The path of the configuration file: the configured one, or
/// `.phoenix/phoenix.conf` under the home directory. The home directory is
/// required either way.
pub fn config_file_path(opts: &PhoenixdSubOpts, home_dir: Option<&str>) -> (r: Result<
    String,
    AuthError,
>)
    ensures
        match r {
            Ok(p) => home_dir is Some && p@ == config_path(*opts, home_dir->0@),
            Err(e) => home_dir is None && e == AuthError::MissingHome,
        },
{
    match home_dir {
        None => Err(AuthError::MissingHome),
        Some(h) => match &opts.phoenixd_config {
            Some(p) => Ok(p.clone()),
            None => {
                let mut p = String::from_str(h);
                p.append("/.phoenix/phoenix.conf");
                Ok(p)
            },
        },
    }
}

/// Resolves the credentials for the node: the configured password (with the
/// configured user name, or `http-password`), else the `http-password` entry
/// of the configuration file. `file_content` is the content of the file at
/// `config_file_path(opts, home_dir)`, `None` where it could not be read; it
/// is not looked at when a password is configured.
pub fn get_auth_config(
    opts: &PhoenixdSubOpts,
    home_dir: Option<&str>,
    file_content: Option<&str>,
) -> (r: Result<AuthCredentials, AuthError>)
    ensures
        match r {
            Ok(c) => resolution(*opts, opt_str_view(home_dir), opt_str_view(file_content)) == Ok::<
                (Seq<char>, Seq<char>),
                AuthError,
            >((c.username@, c.password@)),
            Err(e) => resolution(*opts, opt_str_view(home_dir), opt_str_view(file_content))
                == Err::<(Seq<char>, Seq<char>), AuthError>(e),
        },
{
    match &opts.phoenixd_password {
        Some(p) => {
            let username = match &opts.phoenixd_username {
                Some(u) => u.clone(),
                None => String::from_str("http-password"),
            };
            Ok(AuthCredentials { username, password: p.clone() })
        },
        None => {
            if home_dir.is_none() {
                return Err(AuthError::MissingHome);
            }
            match file_content {
                None => Err(AuthError::ConfigUnreadable),
                Some(c) => {
                    let entries = parse_config(c);
                    match lookup_config(&entries, "http-password") {
                        Some(password) => Ok(
                            AuthCredentials { username: String::from_str("http-password"), password },
                        ),
                        None => Err(AuthError::MissingPassword),
                    }
                },
            }
        },
    }
}

/// The options as the values that credential resolution reads.
pub open spec fn opts_view(o: PhoenixdSubOpts) -> (
    Option<Seq<char>>,
    Option<Seq<char>>,
    Option<Seq<char>>,
    Option<Seq<char>>,
    Option<Seq<char>>,
) {
    (
        opt_view(o.phoenixd_config),
        opt_view(o.phoenixd_url),
        opt_view(o.phoenixd_port),
        opt_view(o.phoenixd_username),
        opt_view(o.phoenixd_password),
    )
}

/// Credential resolution is deterministic: options with the same values,
/// the same home directory and the same file content resolve to the same
/// credentials, or fail in the same way.
pub proof fn lemma_resolution_deterministic(
    a: PhoenixdSubOpts,
    b: PhoenixdSubOpts,
    home: Option<Seq<char>>,
    content: Option<Seq<char>>,
)
    requires
        opts_view(a) == opts_view(b),
    ensures
        resolution(a, home, content) == resolution(b, home, content),
{
    assert(opt_view(a.phoenixd_password) == opt_view(b.phoenixd_password));
    assert(opt_view(a.phoenixd_username) == opt_view(b.phoenixd_username));
}

/// How many times `d` occurs in `s`.
pub open spec fn occurrences(s: Seq<char>, d: char) -> nat
    decreases s.len(),
{
    if s.len() == 0 {
        0
    } else {
        occurrences(s.drop_last(), d) + if s.last() == d {
            1nat
        } else {
            0nat
        }
    }
}

proof fn lemma_split_len(s: Seq<char>, d: char)
    ensures
        split(s, d).len() == occurrences(s, d) + 1,
    decreases s.len(),
{
    if s.len() > 0 {
        lemma_split_len(s.drop_last(), d);
    }
}

/// A configuration line contributes an entry exactly when it holds one `=`;
/// the entry is then the text before it and the text after it, each trimmed.
/// Any other line is ignored.
pub proof fn lemma_config_line(lines: Seq<Seq<char>>, line: Seq<char>)
    ensures
        occurrences(line, '=') == 1 ==> config_entries_of(lines.push(line)) == config_entries_of(
            lines,
        ).push((trim(split(line, '=')[0]), trim(split(line, '=')[1]))),
        occurrences(line, '=') != 1 ==> config_entries_of(lines.push(line)) == config_entries_of(
            lines,
        ),
{
    lemma_split_len(line, '=');
    assert(lines.push(line).drop_last() =~= lines);
}

/// Of entries with equal keys, the last one decides the value.
pub proof fn lemma_last_entry_wins(
    entries: Seq<(Seq<char>, Seq<char>)>,
    key: Seq<char>,
    value: Seq<char>,
    later: Seq<(Seq<char>, Seq<char>)>,
)
    requires
        forall|i: int| 0 <= i < later.len() ==> (#[trigger] later[i]).0 != key,
    ensures
        last_value(entries.push((key, value)) + later, key) == Some(value),
    decreases later.len(),
{
    let all = entries.push((key, value)) + later;
    if later.len() == 0 {
        assert(all =~= entries.push((key, value)));
    } else {
        assert(all.drop_last() =~= entries.push((key, value)) + later.drop_last());
        assert(all.last() == later[later.len() - 1]);
        lemma_last_entry_wins(entries, key, value, later.drop_last());
    }
}

/// An invoice minted by the node.
#[allow(non_snake_case)]
pub struct PhoenixInvoice {
    pub amountSat: u64,
    pub paymentHash: String,
    pub serialized: String,
}

/// The authenticated, form-encoded POST that asks the node for an invoice.
pub struct InvoiceRequest {
    pub url: String,
    pub username: String,
    pub password: String,
    pub form: Vec<(String, String)>,
}

pub open spec fn opt_or(o: Option<String>, default: Seq<char>) -> Seq<char> {
    match o {
        Some(s) => s@,
        None => default,
    }
}

/// The node's invoice endpoint: `{url}:{port}/createinvoice`.
pub open spec fn invoice_url(opts: PhoenixdSubOpts) -> Seq<char> {
    opt_or(opts.phoenixd_url, "http://127.0.0.1"@) + ":"@ + opt_or(opts.phoenixd_port, "9740"@)
        + "/createinvoice"@
}

fn or_default(o: &Option<String>, default: &str) -> (r: String)
    ensures
        r@ == opt_or(*o, default@),
{
    match o {
        Some(s) => s.clone(),
        None => String::from_str(default),
    }
}

/// The request for an invoice of `amount_sat` satoshi with `description`,
/// tagged with `external_id`, authenticated with `creds`.
pub fn invoice_request(
    opts: &PhoenixdSubOpts,
    creds: &AuthCredentials,
    amount_sat: u64,
    description: &str,
    external_id: &str,
) -> (r: InvoiceRequest)
    ensures
        r.url@ == invoice_url(*opts),
        r.username@ == creds.username@,
        r.password@ == creds.password@,
        entries_view(r.form@) == seq![
            ("description"@, description@),
            ("amountSat"@, decimal(amount_sat as nat)),
            ("externalId"@, external_id@),
        ],
{
    let mut url = or_default(&opts.phoenixd_url, "http://127.0.0.1");
    url.append(":");
    let port = or_default(&opts.phoenixd_port, "9740");
    url.append(port.as_str());
    url.append("/createinvoice");
    let mut form: Vec<(String, String)> = Vec::new();
    form.push((String::from_str("description"), String::from_str(description)));
    form.push((String::from_str("amountSat"), decimal_string(amount_sat)));
    form.push((String::from_str("externalId"), String::from_str(external_id)));
    let r = InvoiceRequest {
        url,
        username: creds.username.clone(),
        password: creds.password.clone(),
        form,
    };
    assert(entries_view(r.form@) =~= seq![
        ("description"@, description@),
        ("amountSat"@, decimal(amount_sat as nat)),
        ("externalId"@, external_id@),
    ]);
    assert(r.url@ =~= invoice_url(*opts));
    r
}

} // verus!
