//! The database platform: its configuration, database ids and sizes.

use vstd::prelude::*;
use vstd::utf8::*;

use crate::text::{
    chars_of, decimal, is_decimal_of, joined, lemma_decimal, push_decimal, str_eq, strip_all,
    trim_start_matches,
};

verus! {

/// The configuration of the platform.
#[derive(Debug)]
pub struct MinitursoConfig {
    pub admin_key: String,
    pub version: String,
    pub data_dir: String,
    pub sqld_data_dir: String,
    pub public_dir: Option<String>,
    pub scheme: String,
    pub host: String,
    pub port: u16,
    pub connection_url: Option<String>,
    /// The address of the dedicated admin listener.
    pub admin_listen_addr: String,
}

/// The port that a scheme implies.
pub open spec fn default_port(scheme: Seq<char>) -> int {
    if scheme == "https"@ {
        443
    } else {
        80
    }
}

/// The address that clients connect to: the configured one, or else scheme, host and the port
/// unless the scheme implies it.
pub open spec fn client_url(config: MinitursoConfig) -> Seq<char> {
    match config.connection_url {
        Some(url) => url@,
        None => config.scheme@ + "://"@ + config.host@ + (if config.port == default_port(
            config.scheme@,
        ) {
            Seq::empty()
        } else {
            ":"@ + decimal(config.port as nat)
        }),
    }
}

/// An address without its scheme.
pub open spec fn host_of(url: Seq<char>) -> Seq<char> {
    strip_all(strip_all(url, "http://"@), "https://"@)
}

impl MinitursoConfig {
    /// The address that clients connect to.
    pub fn connection_url(&self) -> (r: String)
        ensures
            r@ == client_url(*self),
    {
        if let Some(url) = &self.connection_url {
            return url.clone();
        }
        let default_port: u16 = if str_eq(self.scheme.as_str(), "https") {
            443
        } else {
            80
        };
        let mut url = joined(self.scheme.as_str(), "://");
        url.append(self.host.as_str());
        if self.port != default_port {
            url.append(":");
            push_decimal(&mut url, self.port as u128);
            assert(url@ =~= client_url(*self));
        } else {
            assert(url@ =~= client_url(*self));
        }
        url
    }
}

/// Removes the scheme from an address.
pub fn connection_host(url: &str) -> (r: String)
    ensures
        r@ == host_of(url@),
{
    let stripped = trim_start_matches(url, "http://");
    trim_start_matches(stripped.as_str(), "https://")
}

/// The host and, unless the scheme implies it, the port of a configuration.
pub open spec fn authority(config: MinitursoConfig) -> Seq<char> {
    config.host@ + (if config.port == default_port(config.scheme@) {
        Seq::empty()
    } else {
        ":"@ + decimal(config.port as nat)
    })
}

/// The host that clients are told is the address without its scheme. This holds of the two
/// schemes of the web, unless the host itself starts with one of them.
pub proof fn lemma_host_is_authority(config: MinitursoConfig)
    requires
        config.connection_url is None,
        config.scheme@ == "http"@ || config.scheme@ == "https"@,
        !"http://"@.is_prefix_of(authority(config)),
        !"https://"@.is_prefix_of(authority(config)),
    ensures
        host_of(client_url(config)) == authority(config),
{
    reveal_strlit("http");
    reveal_strlit("https");
    reveal_strlit("://");
    reveal_strlit("http://");
    reveal_strlit("https://");
    let rest = authority(config);
    let url = client_url(config);
    assert("http"@ + "://"@ =~= "http://"@);
    assert("https"@ + "://"@ =~= "https://"@);
    if config.scheme@ == "http"@ {
        assert(url =~= "http://"@ + rest);
        assert("http://"@.is_prefix_of(url));
        assert(url.skip(7) =~= rest);
        assert(strip_all(url, "http://"@) == strip_all(rest, "http://"@));
    } else {
        assert(url =~= "https://"@ + rest);
        assert(url[4] == 's' && "http://"@[4] == ':');
        assert(!"http://"@.is_prefix_of(url));
        assert("https://"@.is_prefix_of(url));
        assert(url.skip(8) =~= rest);
        assert(strip_all(url, "https://"@) == strip_all(rest, "https://"@));
    }
}

// Database ids.

/// The characters of a database id.
pub open spec fn is_id_char(c: char) -> bool {
    'a' as u32 <= c as u32 <= 'z' as u32 || '0' as u32 <= c as u32 <= '9' as u32
}

/// Whether a text is a database id: 1 to 36 characters, only `[0-9a-z]`.
pub open spec fn is_database_id(id: Seq<char>) -> bool {
    &&& 1 <= id.len() <= 36
    &&& forall|i: int| 0 <= i < id.len() ==> is_id_char(#[trigger] id[i])
}

/// Checks a database id.
pub fn valid_database_id(id: &str) -> (r: bool)
    ensures
        r == is_database_id(id@),
{
    let chars = chars_of(id);
    if chars.len() == 0 || chars.len() > 36 {
        return false;
    }
    let mut i: usize = 0;
    while i < chars.len()
        invariant
            chars@ == id@,
            i <= chars@.len(),
            forall|k: int| 0 <= k < i ==> is_id_char(#[trigger] id@[k]),
        decreases chars@.len() - i,
    {
        let v: u32 = chars[i] as u32;
        if !((97 <= v && v <= 122) || (48 <= v && v <= 57)) {
            assert(!is_id_char(id@[i as int]));
            return false;
        }
        i = i + 1;
    }
    true
}

proof fn lemma_id_char_is_ascii(c: char)
    requires
        is_id_char(c),
    ensures
        '\0' <= c <= '\u{7f}',
{
}

/// A database id takes as many bytes as it has characters.
pub proof fn lemma_id_is_ascii(id: Seq<char>)
    requires
        is_database_id(id),
    ensures
        encode_utf8(id).len() == id.len(),
{
    assert(is_ascii_chars(id)) by {
        assert forall|i: int| 0 <= i < id.len() implies '\0' <= #[trigger] id[i] <= '\u{7f}' by {
            assert(is_id_char(id[i]));
            lemma_id_char_is_ascii(id[i]);
        }
    }
    is_ascii_chars_encode_utf8(id);
}

// Sizes.

/// `n / d`, rounded to the nearest integer, ties to the even one.
pub open spec fn half_even(n: nat, d: nat) -> nat {
    let q = n / d;
    let r = n % d;
    if 2 * r < d || (2 * r == d && q % 2 == 0) {
        q
    } else {
        q + 1
    }
}

/// The distance between the double-precision numbers around an integer, where it is at least 1.
pub open spec fn double_spacing(n: nat) -> nat
    decreases n,
{
    if n < 0x20_0000_0000_0000 {
        1
    } else {
        2 * double_spacing(n / 2)
    }
}

/// The double-precision number nearest to an integer.
pub open spec fn nearest_double(n: nat) -> nat {
    half_even(n, double_spacing(n)) * double_spacing(n)
}

/// A number of bytes in units of `unit`, in tenths: the nearest double-precision number is
/// rounded to one decimal.
pub open spec fn tenths(bytes: nat, unit: nat) -> nat {
    half_even(10 * nearest_double(bytes), unit)
}

/// A number of tenths, printed with one decimal.
pub open spec fn one_decimal(tenths: nat) -> Seq<char> {
    decimal(tenths / 10) + "."@ + decimal(tenths % 10)
}

/// A size for human readers.
pub open spec fn size_text(bytes: u64) -> Seq<char> {
    if bytes < 1024 {
        decimal(bytes as nat) + " B"@
    } else if bytes < 1024 * 1024 {
        one_decimal(tenths(bytes as nat, 1024)) + " KB"@
    } else {
        one_decimal(tenths(bytes as nat, 1024 * 1024)) + " MB"@
    }
}

proof fn lemma_spacing_bound(n: nat)
    ensures
        double_spacing(n) >= 1,
        n >= 0x10_0000_0000_0000 ==> double_spacing(n) * 0x10_0000_0000_0000 <= n,
    decreases n,
{
    if n >= 0x20_0000_0000_0000 {
        lemma_spacing_bound(n / 2);
    }
}

fn spacing(n: u64) -> (r: u64)
    ensures
        r == double_spacing(n as nat),
        1 <= r <= 4096,
    decreases n,
{
    proof {
        lemma_spacing_bound(n as nat);
        lemma_spacing_bound(n as nat / 2);
    }
    if n < 0x20_0000_0000_0000 {
        1
    } else {
        2 * spacing(n / 2)
    }
}

fn round_half_even(n: u128, d: u128) -> (r: u128)
    requires
        0 < d < 0x1000_0000_0000_0000,
        n < 0x1000_0000_0000_0000_0000_0000_0000,
    ensures
        r == half_even(n as nat, d as nat),
        r <= n / d + 1,
{
    let q: u128 = n / d;
    let r: u128 = n % d;
    if 2 * r < d || (2 * r == d && q % 2 == 0) {
        q
    } else {
        q + 1
    }
}

fn push_tenths(out: &mut String, bytes: u64, unit: u64)
    requires
        unit == 1024 || unit == 1024 * 1024,
    ensures
        final(out)@ == old(out)@ + one_decimal(tenths(bytes as nat, unit as nat)),
{
    let gap: u128 = spacing(bytes) as u128;
    let steps: u128 = round_half_even(bytes as u128, gap);
    assert(steps * gap <= 0x2_0000_0000_0000_0000 && steps * gap == nearest_double(bytes as nat))
        by (nonlinear_arith)
        requires
            1 <= gap <= 4096,
            gap == double_spacing(bytes as nat),
            steps == half_even(bytes as nat, gap as nat),
            steps <= bytes / (gap as u64) + 1,
            bytes <= 0xffff_ffff_ffff_ffff,
    ;
    let near: u128 = steps * gap;
    let t: u128 = round_half_even(10 * near, unit as u128);
    push_decimal(out, t / 10);
    out.append(".");
    push_decimal(out, t % 10);
    assert(out@ =~= old(out)@ + one_decimal(tenths(bytes as nat, unit as nat)));
}

/// Prints a size for human readers.
pub fn format_bytes(bytes: u64) -> (r: String)
    ensures
        r@ == size_text(bytes),
{
    let mut out = String::new();
    if bytes < 1024 {
        push_decimal(&mut out, bytes as u128);
        out.append(" B");
    } else if bytes < 1024 * 1024 {
        push_tenths(&mut out, bytes, 1024);
        out.append(" KB");
    } else {
        push_tenths(&mut out, bytes, 1024 * 1024);
        out.append(" MB");
    }
    assert(out@ =~= size_text(bytes));
    out
}


// Laws.

/// Whether a configuration leaves the port out of its address: it is 443 under `https`, or 80
/// under any other scheme.
pub open spec fn port_is_implied(config: MinitursoConfig) -> bool {
    (config.scheme@ == "https"@ && config.port == 443) || (config.scheme@ != "https"@
        && config.port == 80)
}

/// A configured address is used as it is. Without one, clients connect to scheme, host and port,
/// where the port stays out only if the scheme implies it.
pub proof fn lemma_client_url(config: MinitursoConfig)
    ensures
        match config.connection_url {
            Some(url) => client_url(config) == url@,
            None => {
                let base = config.scheme@ + "://"@ + config.host@;
                if port_is_implied(config) {
                    client_url(config) == base
                } else {
                    exists|port: Seq<char>|
                        client_url(config) == #[trigger] (base + ":"@ + port) && is_decimal_of(
                            port,
                            config.port as int,
                        )
                }
            },
        },
{
    if config.connection_url is None {
        let base = config.scheme@ + "://"@ + config.host@;
        let port = decimal(config.port as nat);
        lemma_decimal(config.port as nat);
        if port_is_implied(config) {
            assert(client_url(config) =~= base);
        } else {
            assert(client_url(config) =~= base + ":"@ + port);
        }
    }
}

/// The law of addresses holds of what `connection_url` returns.
pub proof fn lemma_connection_url(config: &MinitursoConfig, r: String)
    requires
        call_ensures(MinitursoConfig::connection_url, (config,), r),
    ensures
        match config.connection_url {
            Some(url) => r@ == url@,
            None => {
                let base = config.scheme@ + "://"@ + config.host@;
                if port_is_implied(*config) {
                    r@ == base
                } else {
                    exists|port: Seq<char>|
                        r@ == #[trigger] (base + ":"@ + port) && is_decimal_of(
                            port,
                            config.port as int,
                        )
                }
            },
        },
{
    lemma_client_url(*config);
}

/// Whether a host and an address are handed out together: the host is the address without its
/// scheme.
pub open spec fn is_host_of_url(host: Seq<char>, url: Seq<char>) -> bool {
    forall|rest: Seq<char>|
        !(#[trigger] "http://"@.is_prefix_of(rest)) && !"https://"@.is_prefix_of(rest) && (url
            == "http://"@ + rest || url == "https://"@ + rest) ==> host == rest
}

/// The host that is computed from an address is the host of that address. It shows the port
/// wherever the address does.
pub proof fn lemma_host_matches_url(config: MinitursoConfig)
    ensures
        is_host_of_url(host_of(client_url(config)), client_url(config)),
        config.connection_url is None && (config.scheme@ == "http"@ || config.scheme@ == "https"@)
            && !"http://"@.is_prefix_of(authority(config)) && !"https://"@.is_prefix_of(
            authority(config),
        ) && !port_is_implied(config) ==> exists|port: Seq<char>|
            host_of(client_url(config)) == #[trigger] (config.host@ + ":"@ + port)
                && is_decimal_of(port, config.port as int),
{
    let url = client_url(config);
    assert forall|rest: Seq<char>|
        !(#[trigger] "http://"@.is_prefix_of(rest)) && !"https://"@.is_prefix_of(rest) && (url
            == "http://"@ + rest || url == "https://"@ + rest) implies host_of(url) == rest by {
        lemma_host_of(url, rest);
    }
    if config.connection_url is None && (config.scheme@ == "http"@ || config.scheme@ == "https"@)
        && !"http://"@.is_prefix_of(authority(config)) && !"https://"@.is_prefix_of(
        authority(config),
    ) && !port_is_implied(config) {
        lemma_host_is_authority(config);
        lemma_decimal(config.port as nat);
        let port = decimal(config.port as nat);
        assert(authority(config) =~= config.host@ + ":"@ + port);
    }
}

/// An address loses its scheme and nothing else: what follows `http://` or `https://` is the
/// host, and an address that starts with neither is its own host.
pub proof fn lemma_connection_host(url: &str, rest: Seq<char>, r: String)
    requires
        call_ensures(connection_host, (url,), r),
        url@ == "http://"@ + rest || url@ == "https://"@ + rest || url@ == rest,
        !"http://"@.is_prefix_of(rest),
        !"https://"@.is_prefix_of(rest),
    ensures
        r@ == rest,
{
    lemma_host_of(url@, rest);
}

/// The law of `connection_host`, over texts.
pub proof fn lemma_host_of(url: Seq<char>, rest: Seq<char>)
    requires
        url == "http://"@ + rest || url == "https://"@ + rest || url == rest,
        !"http://"@.is_prefix_of(rest),
        !"https://"@.is_prefix_of(rest),
    ensures
        host_of(url) == rest,
{
    reveal_strlit("http://");
    reveal_strlit("https://");
    if url == "http://"@ + rest {
        assert("http://"@ =~= url.subrange(0, 7));
        assert(url.skip(7) =~= rest);
        assert(strip_all(url, "http://"@) == strip_all(rest, "http://"@));
    } else if url == "https://"@ + rest {
        assert(url[4] == 's' && "http://"@[4] == ':');
        assert(!"http://"@.is_prefix_of(url));
        assert("https://"@ =~= url.subrange(0, 8));
        assert(url.skip(8) =~= rest);
        assert(strip_all(url, "https://"@) == strip_all(rest, "https://"@));
    }
}

proof fn lemma_id_char_is_listed(c: char)
    ensures
        is_id_char(c) <==> "0123456789abcdefghijklmnopqrstuvwxyz"@.contains(c),
{
    reveal_strlit("0123456789abcdefghijklmnopqrstuvwxyz");
    let listed = "0123456789abcdefghijklmnopqrstuvwxyz"@;
    assert(listed.len() == 36);
    assert forall|i: int| 0 <= i < 36 implies (#[trigger] listed[i]) as u32 == if i < 10 {
        48 + i
    } else {
        87 + i
    } by {}
    if 48 <= c as u32 <= 57 {
        assert(listed[c as u32 - 48] as u32 == c as u32);
        assert(listed[c as u32 - 48] == c);
    }
    if 97 <= c as u32 <= 122 {
        assert(listed[c as u32 - 87] as u32 == c as u32);
        assert(listed[c as u32 - 87] == c);
    }
    if listed.contains(c) {
        let i = choose|i: int| 0 <= i < listed.len() && listed[i] == c;
        assert(listed[i] as u32 == c as u32);
    }
}

/// An id is valid exactly if it has 1 to 36 characters, each of them a digit or a small letter.
pub proof fn lemma_valid_database_id(id: &str, r: bool)
    requires
        call_ensures(valid_database_id, (id,), r),
    ensures
        r == is_database_id(id@),
        r <==> 1 <= id@.len() <= 36 && forall|i: int|
            0 <= i < id@.len() ==> "0123456789abcdefghijklmnopqrstuvwxyz"@.contains(
                #[trigger] id@[i],
            ),
{
    assert forall|i: int| 0 <= i < id@.len() implies is_id_char(#[trigger] id@[i])
        == "0123456789abcdefghijklmnopqrstuvwxyz"@.contains(id@[i]) by {
        lemma_id_char_is_listed(id@[i]);
    }
}

proof fn lemma_half_even(n: nat, d: nat)
    requires
        d > 0,
    ensures
        -(d as int) <= 2 * (half_even(n, d) * d - n) <= d,
        2 * (half_even(n, d) * d - n) == d || 2 * (half_even(n, d) * d - n) == -(d as int)
            ==> half_even(n, d) % 2 == 0,
{
    let q = n / d;
    let r = n % d;
    let h = half_even(n, d);
    assert(n == q * d + r && r < d) by (nonlinear_arith)
        requires
            d > 0,
            q == n / d,
            r == n % d,
    ;
    assert((q + 1) * d == q * d + d) by (nonlinear_arith);
    if h == q {
        assert(2 * (h * d - n) == -2 * r);
    } else {
        assert(2 * (h * d - n) == 2 * (d - r));
        assert(2 * r == d ==> (q + 1) % 2 == 0);
    }
}

/// Whether a text is a number of tenths, printed with one decimal.
pub open spec fn is_tenths_text(text: Seq<char>, t: int) -> bool {
    exists|whole: Seq<char>, digit: Seq<char>|
        text == #[trigger] (whole + "."@ + digit) && is_decimal_of(whole, t / 10) && is_decimal_of(
            digit,
            t % 10,
        ) && digit.len() == 1
}

/// How a size is printed: bytes as they are below 1024 of them, kilobytes below 1024 of those,
/// and megabytes from there on. The number of these has one decimal and is the nearest one, the
/// even one of two that are equally near. From 2 to the 53 on the size is first rounded to a
/// double, which may add a relative error of 2 to the minus 53.
pub proof fn lemma_format_bytes(bytes: u64, r: String) -> (t: nat)
    requires
        call_ensures(format_bytes, (bytes,), r),
    ensures
        bytes < 1024 ==> exists|d: Seq<char>|
            r@ == #[trigger] (d + " B"@) && is_decimal_of(d, bytes as int),
        1024 <= bytes < 1048576 ==> exists|d: Seq<char>|
            r@ == #[trigger] (d + " KB"@) && is_tenths_text(d, t as int),
        bytes >= 1048576 ==> exists|d: Seq<char>|
            r@ == #[trigger] (d + " MB"@) && is_tenths_text(d, t as int),
        bytes >= 1024 ==> ({
            let unit: int = if bytes < 1048576 {
                1024
            } else {
                1048576
            };
            let twice = 2 * (t * unit - 10 * bytes);
            &&& bytes < 0x20_0000_0000_0000 ==> -unit <= twice <= unit && (twice == unit || twice
                == -unit ==> t % 2 == 0)
            &&& (twice - unit) * 0x10_0000_0000_0000 <= 10 * bytes
            &&& (-twice - unit) * 0x10_0000_0000_0000 <= 10 * bytes
        }),
{
    let n = bytes as nat;
    let unit: nat = if bytes < 1048576 {
        1024
    } else {
        1048576
    };
    let near = nearest_double(n);
    let gap = double_spacing(n);
    let t = half_even(10 * near, unit);
    lemma_decimal(n);
    lemma_decimal(t / 10);
    lemma_decimal(t % 10);
    if bytes < 1024 {
        assert(r@ == decimal(n) + " B"@);
    } else {
        let d = one_decimal(t);
        assert(decimal(t % 10).len() == 1);
        assert(is_tenths_text(d, t as int)) by {
            assert(d == decimal(t / 10) + "."@ + decimal(t % 10));
        }
        if bytes < 1048576 {
            assert(r@ == d + " KB"@);
        } else {
            assert(r@ == d + " MB"@);
        }
        lemma_spacing_bound(n);
        lemma_half_even(n, gap);
        lemma_half_even(10 * near, unit);
        let off = near - n;
        assert(-(gap as int) <= 2 * off <= gap);
        if n < 0x20_0000_0000_0000 {
            assert(gap == 1);
            assert(off == 0);
        }
        let twice = 2 * (t * unit - 10 * n);
        let inner = 2 * (t * unit - 10 * near);
        assert(twice == inner + 20 * off);
        assert(twice - unit <= 10 * gap);
        assert(-twice - unit <= 10 * gap);
        if n >= 0x10_0000_0000_0000 {
            assert(gap * 0x10_0000_0000_0000 <= n);
        }
    }
    t
}

} // verus!
