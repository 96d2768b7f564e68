//! The password verifier: checks a plaintext password against a stored hash
//! in the legacy multi-scheme format `tag$parameters$salt$digest`.

use vstd::prelude::*;
use vstd::string::*;

verus! {

/// Whether `djangohashers::check_password(password, encoded)` returns `Ok(true)`:
/// the hash's scheme is known, its format is sound, and re-deriving the digest
/// from `password` with the embedded parameters and salt gives the embedded digest.
pub uninterp spec fn password_check(password: Seq<char>, encoded: Seq<char>) -> bool;

/// The parts of `s` between the separators `c`; there is always at least one.
pub open spec fn fields(s: Seq<char>, c: char) -> Seq<Seq<char>>
    decreases s.len(),
{
    if s.len() == 0 {
        seq![Seq::empty()]
    } else {
        let rest = fields(s.drop_first(), c);
        if s[0] == c {
            seq![Seq::empty()] + rest
        } else {
            rest.update(0, seq![s[0]] + rest[0])
        }
    }
}

/// The value of a decimal digit.
pub open spec fn digit_value(c: char) -> int {
    if c == '1' { 1 } else if c == '2' { 2 } else if c == '3' { 3 } else if c == '4' { 4 }
    else if c == '5' { 5 } else if c == '6' { 6 } else if c == '7' { 7 } else if c == '8' { 8 }
    else if c == '9' { 9 } else { 0 }
}

pub open spec fn is_digit(c: char) -> bool {
    '0' <= c <= '9'
}

/// The value of a run of decimal digits, where it fits in a `u32`.
pub open spec fn small_value(s: Seq<char>) -> Option<int>
    decreases s.len(),
{
    if s.len() == 0 {
        Some(0)
    } else {
        match small_value(s.drop_last()) {
            Some(v) => if is_digit(s.last()) && v * 10 + digit_value(s.last()) <= 4294967295 {
                Some(v * 10 + digit_value(s.last()))
            } else {
                None
            },
            None => None,
        }
    }
}

/// The value of a non-empty field of decimal digits that fits in a `u32`.
pub open spec fn decimal_field(s: Seq<char>) -> Option<int> {
    if s.len() == 0 {
        None
    } else {
        small_value(s)
    }
}

/// A non-empty run of zeros.
pub open spec fn all_zeros(b: Seq<char>) -> bool {
    b.len() > 0 && forall|i: int| 0 <= i < b.len() ==> #[trigger] b[i] == '0'
}

/// A text that `u32` parsing reads as zero: an optional `+`, then only zeros.
pub open spec fn is_zero_count(f: Seq<char>) -> bool {
    if f.len() > 0 && f[0] == '+' {
        all_zeros(f.drop_first())
    } else {
        all_zeros(f)
    }
}

/// The value of a base64url character, or -1 for any other character.
pub open spec fn b64url_value(c: char) -> int {
    if 'A' <= c <= 'Z' {
        (c as u32) as int - 65
    } else if 'a' <= c <= 'z' {
        (c as u32) as int - 71
    } else if '0' <= c <= '9' {
        (c as u32) as int + 4
    } else if c == '-' {
        62
    } else if c == '_' {
        63
    } else {
        -1
    }
}

/// Canonical unpadded base64url text of at least eight bytes: no unused bits
/// are set in its last character.
pub open spec fn is_b64url_salt(s: Seq<char>) -> bool {
    &&& s.len() >= 11
    &&& s.len() % 4 != 1
    &&& forall|i: int| 0 <= i < s.len() ==> #[trigger] b64url_value(s[i]) >= 0
    &&& s.len() % 4 == 2 ==> b64url_value(s.last()) % 16 == 0
    &&& s.len() % 4 == 3 ==> b64url_value(s.last()) % 4 == 0
}

/// What `u32` parsing reads from a text: an optional `+`, then decimal digits.
pub open spec fn u32_field(s: Seq<char>) -> Option<int> {
    if s.len() > 0 && s[0] == '+' {
        decimal_field(s.drop_first())
    } else {
        decimal_field(s)
    }
}

/// The number in a setting such as `m=512`: the text after its first `=`, up to
/// any further `=`. The setting's name is not read.
pub open spec fn setting_value(f: Seq<char>) -> Option<int> {
    if fields(f, '=').len() >= 2 {
        u32_field(fields(f, '=')[1])
    } else {
        None
    }
}

/// Argon2 settings whose first three parts give memory, passes and lanes that the
/// key derivation accepts: at least one pass, one to 1024 lanes (each a thread),
/// and at least 8 KiB per lane, with memory capped at 2 GiB.
pub open spec fn is_argon2_settings(s: Seq<char>) -> bool {
    let g = fields(s, ',');
    g.len() >= 3 && match (setting_value(g[0]), setting_value(g[1]), setting_value(g[2])) {
        (Some(m), Some(t), Some(p)) => 1 <= p <= 1024 && 8 * p <= m <= 2097152 && t >= 1,
        _ => false,
    }
}

/// `argon2$<variant>$[v=<version>$]<settings>$<salt>$<hash>`, with sound settings,
/// a decodable salt and a hash of at least four bytes.
pub open spec fn is_argon2_hash(f: Seq<Seq<char>>) -> bool {
    &&& f.len() == 5 || f.len() == 6
    &&& is_argon2_settings(f[f.len() - 3])
    &&& is_b64url_salt(f[f.len() - 2])
    &&& f[f.len() - 1].len() >= 6
}

pub open spec fn pow2(k: nat) -> nat
    decreases k,
{
    if k == 0 {
        1
    } else {
        2 * pow2((k - 1) as nat)
    }
}

/// `scrypt$<N>$<salt>$<r>$<p>$<hash>` with `N = 2^k`, `r, p >= 1` and `k < 16 r`,
/// as the key derivation requires, and with its two buffers, `128 N r` and
/// `128 p r` bytes, capped at 2 GiB.
pub open spec fn is_scrypt_hash(f: Seq<Seq<char>>) -> bool {
    f.len() == 6 && match (u32_field(f[1]), u32_field(f[3]), u32_field(f[4])) {
        (Some(n), Some(r), Some(p)) => 1 <= r && 1 <= p && p * r <= 0x100_0000 && exists|k: nat|
            k <= 24 && #[trigger] pow2(k) == n && k < 16 * r && pow2(k) * r <= 0x100_0000,
        _ => false,
    }
}

/// A character of the `crypt` salt alphabet `./0-9A-Za-z`.
pub open spec fn is_crypt64(c: char) -> bool {
    c == '.' || c == '/' || ('0' <= c <= '9') || ('A' <= c <= 'Z') || ('a' <= c <= 'z')
}

/// A salt character on which the DES-crypt decoder aborts: below U+0020 or U+0080.
pub open spec fn is_crypt_abort_char(c: char) -> bool {
    (c as u32) < 0x20 || (c as u32) == 0x80
}

/// The `crypt` salt, the first two characters of the field, is read one character
/// at a time until one is not in the alphabet; none read may make it abort.
pub open spec fn is_crypt_salt_safe(h: Seq<char>) -> bool {
    &&& h.len() >= 1 ==> !is_crypt_abort_char(h[0])
    &&& h.len() >= 2 && is_crypt64(h[0]) ==> !is_crypt_abort_char(h[1])
}

pub open spec fn is_pbkdf2_tag(t: Seq<char>) -> bool {
    t == "pbkdf2_sha256"@ || t == "pbkdf2_sha1"@
}

/// The stored hashes that are handed to the outside checker: those on which it
/// returns rather than aborts. An argon2 or scrypt hash must be well formed with
/// parameters its key derivation accepts, within the memory and thread caps; a
/// PBKDF2 hash must not give zero iterations; a `crypt` salt must decode or be refused.
pub open spec fn is_checkable_hash(e: Seq<char>) -> bool {
    let f = fields(e, '$');
    if f[0] == "argon2"@ {
        is_argon2_hash(f)
    } else if f[0] == "scrypt"@ {
        is_scrypt_hash(f)
    } else if is_pbkdf2_tag(f[0]) {
        f.len() >= 2 ==> !is_zero_count(f[1])
    } else if f[0] == "crypt"@ {
        f.len() >= 3 ==> is_crypt_salt_safe(f[2])
    } else {
        true
    }
}

/// The algorithm tags the outside checker knows.
pub open spec fn is_known_tag(t: Seq<char>) -> bool {
    t == "pbkdf2_sha256"@ || t == "pbkdf2_sha1"@ || t == "argon2"@ || t == "scrypt"@ || t
        == "bcrypt_sha256"@ || t == "bcrypt"@ || t == "sha1"@ || t == "md5"@ || t == "crypt"@
}

/// A stored hash that matches no password: it is empty, or its tag, before a
/// `$`, is not one the checker knows.
pub open spec fn is_unusable_hash(e: Seq<char>) -> bool {
    e.len() == 0 || (fields(e, '$').len() > 1 && !is_known_tag(fields(e, '$')[0]))
}

/// Passwords short enough for every key derivation.
pub open spec fn is_checkable_password(p: Seq<char>) -> bool {
    p.len() < 0x4000_0000
}

/// Whether `password` matches the stored hash `encoded`. A hash that is empty,
/// malformed, or of an unknown scheme matches no password.
pub open spec fn password_matches(password: Seq<char>, encoded: Seq<char>) -> bool {
    is_checkable_password(password) && is_checkable_hash(encoded) && password_check(
        password,
        encoded,
    )
}

/// Relies on `djangohashers::check_password`: it dispatches on the tag, re-derives
/// the digest and compares in constant time. An error (empty hash, unknown scheme,
/// bad format) is reported as no match; an empty hash is an error, and so is a tag
/// it does not know in a hash that holds a `$`.
#[verifier::external_body]
fn django_check_password(password: &str, encoded: &str) -> (r: bool)
    requires
        is_checkable_password(password@),
        is_checkable_hash(encoded@),
    ensures
        r == password_check(password@, encoded@),
        encoded@.len() == 0 ==> !r,
        fields(encoded@, '$').len() > 1 && !is_known_tag(fields(encoded@, '$')[0]) ==> !r,
{
    matches!(djangohashers::check_password(password, encoded), Ok(true))
}


proof fn lemma_fields_nonempty(s: Seq<char>, c: char)
    ensures
        fields(s, c).len() >= 1,
    decreases s.len(),
{
    if s.len() > 0 {
        lemma_fields_nonempty(s.drop_first(), c);
    }
}

proof fn lemma_pow2_mono(a: nat, b: nat)
    requires
        a <= b,
    ensures
        pow2(a) <= pow2(b),
    decreases b,
{
    if a < b {
        lemma_pow2_mono(a, (b - 1) as nat);
    }
}

fn split_on(s: &str, c: char) -> (r: Vec<String>)
    ensures
        r@.len() >= 1,
        r@.len() == fields(s@, c).len(),
        forall|k: int| 0 <= k < r@.len() ==> #[trigger] r@[k]@ == fields(s@, c)[k],
{
    let n = s.unicode_len();
    let mut acc: Vec<String> = Vec::new();
    acc.push(String::new());
    let mut i = n;
    assert(s@.subrange(n as int, n as int) =~= Seq::<char>::empty());
    while i > 0
        invariant
            n == s@.len(),
            0 <= i <= n,
            acc@.len() >= 1,
            acc@.len() == fields(s@.subrange(i as int, n as int), c).len(),
            forall|k: int|
                0 <= k < acc@.len() ==> #[trigger] acc@[k]@ == fields(
                    s@.subrange(i as int, n as int),
                    c,
                )[k],
        decreases i,
    {
        let x = s.get_char(i - 1);
        let ghost sub = s@.subrange(i - 1, n as int);
        let ghost rest = fields(s@.subrange(i as int, n as int), c);
        assert(sub.drop_first() =~= s@.subrange(i as int, n as int));
        assert(sub[0] == x);
        let ghost prev = acc@;
        if x == c {
            acc.insert(0, String::new());
            assert(fields(sub, c) == seq![Seq::<char>::empty()] + rest);
            assert forall|k: int| 0 <= k < acc@.len() implies #[trigger] acc@[k]@ == fields(sub, c)[k] by {
                if k > 0 {
                    assert(acc@[k] == prev[k - 1]);
                }
            }
        } else {
            let piece = s.substring_char(i - 1, i);
            assert(piece@ =~= seq![x]);
            let mut t = String::from_str(piece);
            t.append(acc[0].as_str());
            acc.set(0, t);
            assert(fields(sub, c) == rest.update(0, seq![x] + rest[0]));
            assert forall|k: int| 0 <= k < acc@.len() implies #[trigger] acc@[k]@ == fields(sub, c)[k] by {
                if k == 0 {
                    assert(acc@[0]@ =~= seq![x] + rest[0]);
                }
            }
        }
        i = i - 1;
    }
    assert(s@.subrange(0, n as int) =~= s@);
    proof {
        lemma_fields_nonempty(s@, c);
    }
    acc
}

fn digit_of(c: char) -> (r: u64)
    ensures
        r as int == digit_value(c),
        r <= 9,
{
    if c == '1' { 1 } else if c == '2' { 2 } else if c == '3' { 3 } else if c == '4' { 4 }
    else if c == '5' { 5 } else if c == '6' { 6 } else if c == '7' { 7 } else if c == '8' { 8 }
    else if c == '9' { 9 } else { 0 }
}

fn decimal_field_of(s: &str) -> (r: Option<u64>)
    ensures
        match r {
            Some(v) => decimal_field(s@) == Some(v as int),
            None => decimal_field(s@) is None,
        },
{
    let n = s.unicode_len();
    if n == 0 {
        return None;
    }
    let mut val: u64 = 0;
    let mut ok = true;
    let mut i: usize = 0;
    assert(s@.subrange(0, 0) =~= Seq::<char>::empty());
    while i < n
        invariant
            n == s@.len(),
            0 <= i <= n,
            small_value(s@.subrange(0, i as int)) == if ok {
                Some(val as int)
            } else {
                None::<int>
            },
            ok ==> val <= 4294967295,
        decreases n - i,
    {
        let c = s.get_char(i);
        let ghost pre = s@.subrange(0, i + 1);
        assert(pre.drop_last() =~= s@.subrange(0, i as int));
        assert(pre.last() == c);
        if ok {
            let d = digit_of(c);
            if c >= '0' && c <= '9' && val * 10 + d <= 4294967295 {
                val = val * 10 + d;
            } else {
                ok = false;
            }
        }
        i = i + 1;
    }
    assert(s@.subrange(0, n as int) =~= s@);
    if ok {
        Some(val)
    } else {
        None
    }
}

fn is_zero_count_str(f: &str) -> (r: bool)
    ensures
        r == is_zero_count(f@),
{
    let n = f.unicode_len();
    let start: usize = if n > 0 && f.get_char(0) == '+' {
        1
    } else {
        0
    };
    let ghost body = if f@.len() > 0 && f@[0] == '+' {
        f@.drop_first()
    } else {
        f@
    };
    assert(body =~= f@.subrange(start as int, n as int));
    if start >= n {
        assert(!is_zero_count(f@));
        return false;
    }
    let mut i = start;
    while i < n
        invariant
            n == f@.len(),
            start <= i <= n,
            body =~= f@.subrange(start as int, n as int),
            body == (if f@.len() > 0 && f@[0] == '+' {
                f@.drop_first()
            } else {
                f@
            }),
            forall|j: int| start <= j < i ==> f@[j] == '0',
        decreases n - i,
    {
        if f.get_char(i) != '0' {
            assert(body[i - start] != '0');
            assert(!all_zeros(body));
            return false;
        }
        i = i + 1;
    }
    assert forall|j: int| 0 <= j < body.len() implies #[trigger] body[j] == '0' by {
        assert(body[j] == f@[j + start]);
    }
    assert(is_zero_count(f@));
    true
}

fn b64_value(c: char) -> (r: i64)
    ensures
        r == b64url_value(c),
{
    if 'A' <= c && c <= 'Z' {
        (c as u32) as i64 - 65
    } else if 'a' <= c && c <= 'z' {
        (c as u32) as i64 - 71
    } else if '0' <= c && c <= '9' {
        (c as u32) as i64 + 4
    } else if c == '-' {
        62
    } else if c == '_' {
        63
    } else {
        -1
    }
}

fn is_b64url_salt_str(s: &str) -> (r: bool)
    ensures
        r == is_b64url_salt(s@),
{
    let n = s.unicode_len();
    if n < 11 || n % 4 == 1 {
        return false;
    }
    let mut i: usize = 0;
    while i < n
        invariant
            n == s@.len(),
            0 <= i <= n,
            forall|j: int| 0 <= j < i ==> #[trigger] b64url_value(s@[j]) >= 0,
        decreases n - i,
    {
        if b64_value(s.get_char(i)) < 0 {
            return false;
        }
        i = i + 1;
    }
    assert(s@.last() == s@[n - 1]);
    let last = b64_value(s.get_char(n - 1));
    if n % 4 == 2 {
        last % 16 == 0
    } else if n % 4 == 3 {
        last % 4 == 0
    } else {
        true
    }
}

fn u32_field_of(s: &str) -> (r: Option<u64>)
    ensures
        match r {
            Some(v) => u32_field(s@) == Some(v as int),
            None => u32_field(s@) is None,
        },
{
    let n = s.unicode_len();
    if n > 0 && s.get_char(0) == '+' {
        let rest = s.substring_char(1, n);
        assert(rest@ =~= s@.drop_first());
        decimal_field_of(rest)
    } else {
        decimal_field_of(s)
    }
}

fn setting_of(f: &str) -> (r: Option<u64>)
    ensures
        match r {
            Some(v) => setting_value(f@) == Some(v as int),
            None => setting_value(f@) is None,
        },
{
    let parts = split_on(f, '=');
    if parts.len() >= 2 {
        u32_field_of(parts[1].as_str())
    } else {
        None
    }
}

fn is_argon2_settings_str(s: &str) -> (r: bool)
    ensures
        r == is_argon2_settings(s@),
{
    let g = split_on(s, ',');
    if g.len() < 3 {
        return false;
    }
    let m = setting_of(g[0].as_str());
    let t = setting_of(g[1].as_str());
    let p = setting_of(g[2].as_str());
    match (m, t, p) {
        (Some(m), Some(t), Some(p)) => 1 <= p && p <= 1024 && 8 * p <= m && m <= 2097152 && t >= 1,
        _ => false,
    }
}

fn is_argon2(f: &Vec<String>) -> (r: bool)
    requires
        f@.len() >= 1,
    ensures
        r == is_argon2_hash(f@.map_values(|x: String| x@)),
{
    let ghost v = f@.map_values(|x: String| x@);
    let n = f.len();
    if n != 5 && n != 6 {
        return false;
    }
    assert(v[n - 3] == f@[n - 3]@ && v[n - 2] == f@[n - 2]@ && v[n - 1] == f@[n - 1]@);
    is_argon2_settings_str(f[n - 3].as_str()) && is_b64url_salt_str(f[n - 2].as_str())
        && f[n - 1].as_str().unicode_len() >= 6
}

proof fn lemma_pow2_24()
    ensures
        pow2(24) == 0x100_0000,
{
    reveal_with_fuel(pow2, 25);
}

fn scrypt_log_n_exists(n: u64, r: u64) -> (b: bool)
    requires
        1 <= r <= 0x100_0000,
    ensures
        b == exists|j: nat|
            j <= 24 && #[trigger] pow2(j) == n as int && j < 16 * r && pow2(j) * r <= 0x100_0000,
{
    let mut k: u64 = 0;
    let mut pw: u64 = 1;
    while k <= 24
        invariant
            k <= 25,
            1 <= r <= 0x100_0000,
            pw == pow2(k as nat),
            k <= 24 ==> pw <= 0x100_0000,
            forall|j: nat|
                j < k ==> !(#[trigger] pow2(j) == n && j < 16 * r && pow2(j) * r <= 0x100_0000),
        decreases 25 - k,
    {
        assert(pw * r <= 0x100_0000 * 0x100_0000) by (nonlinear_arith)
            requires
                pw <= 0x100_0000,
                r <= 0x100_0000,
        ;
        if pw == n && k < 16 * r && pw * r <= 0x100_0000 {
            assert(pow2(k as nat) == n as int);
            return true;
        }
        assert(pow2((k + 1) as nat) == 2 * pow2(k as nat));
        proof {
            if k < 24 {
                lemma_pow2_mono((k + 1) as nat, 24);
                lemma_pow2_24();
            }
        }
        k = k + 1;
        pw = pw * 2;
    }
    false
}

fn is_scrypt(f: &Vec<String>) -> (r: bool)
    ensures
        r == is_scrypt_hash(f@.map_values(|x: String| x@)),
{
    let ghost v = f@.map_values(|x: String| x@);
    if f.len() != 6 {
        return false;
    }
    assert(v[1] == f@[1]@ && v[3] == f@[3]@ && v[4] == f@[4]@);
    let nn = u32_field_of(f[1].as_str());
    let rr = u32_field_of(f[3].as_str());
    let pp = u32_field_of(f[4].as_str());
    match (nn, rr, pp) {
        (Some(n), Some(r), Some(p)) => {
            if !(1 <= r && r <= 0x100_0000 && 1 <= p && p <= 0x100_0000) {
                assert(!is_scrypt_hash(v)) by {
                    if 1 <= r && 1 <= p {
                        assert(p * r >= p && p * r >= r) by (nonlinear_arith)
                            requires
                                1 <= r,
                                1 <= p,
                        ;
                    }
                }
                return false;
            }
            assert(p * r <= 0x100_0000 * 0x100_0000) by (nonlinear_arith)
                requires
                    p <= 0x100_0000,
                    r <= 0x100_0000,
            ;
            if p * r > 0x100_0000 {
                return false;
            }
            scrypt_log_n_exists(n, r)
        },
        _ => {
            assert(!is_scrypt_hash(v));
            false
        },
    }
}

fn is_crypt64_char(c: char) -> (r: bool)
    ensures
        r == is_crypt64(c),
{
    c == '.' || c == '/' || ('0' <= c && c <= '9') || ('A' <= c && c <= 'Z') || ('a' <= c && c <= 'z')
}

fn is_crypt_salt_safe_str(h: &str) -> (r: bool)
    ensures
        r == is_crypt_salt_safe(h@),
{
    let n = h.unicode_len();
    if n >= 1 {
        let c0 = h.get_char(0);
        if (c0 as u32) < 0x20 || (c0 as u32) == 0x80 {
            return false;
        }
        if n >= 2 && is_crypt64_char(c0) {
            let c1 = h.get_char(1);
            if (c1 as u32) < 0x20 || (c1 as u32) == 0x80 {
                return false;
            }
        }
    }
    true
}

fn is_checkable(encoded: &str) -> (r: bool)
    ensures
        r == is_checkable_hash(encoded@),
{
    let f = split_on(encoded, '$');
    let ghost v = f@.map_values(|x: String| x@);
    assert(v =~= fields(encoded@, '$'));
    let tag = &f[0];
    if *tag == String::from_str("argon2") {
        is_argon2(&f)
    } else if *tag == String::from_str("scrypt") {
        is_scrypt(&f)
    } else if *tag == String::from_str("pbkdf2_sha256") || *tag == String::from_str("pbkdf2_sha1") {
        if f.len() >= 2 {
            !is_zero_count_str(f[1].as_str())
        } else {
            true
        }
    } else if *tag == String::from_str("crypt") {
        if f.len() >= 3 {
            is_crypt_salt_safe_str(f[2].as_str())
        } else {
            true
        }
    } else {
        true
    }
}

/// Checks `password` against the stored hash `encoded`. Never fails: a hash that
/// cannot be checked is a mismatch, so that a caller's response to it cannot be
/// told apart from a wrong password.
pub fn verify_password(password: &str, encoded: &str) -> (r: bool)
    ensures
        r == password_matches(password@, encoded@),
        is_unusable_hash(encoded@) ==> !r,
{
    if password.unicode_len() < 0x4000_0000 && is_checkable(encoded) {
        django_check_password(password, encoded)
    } else {
        false
    }
}

} // verus!
