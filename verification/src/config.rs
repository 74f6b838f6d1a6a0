//! The service's settings, read from the values of its environment variables.
use vstd::prelude::*;
use crate::dtos::opt_text;

verus! {

/// The service's settings.
#[derive(Clone, Debug)]
pub struct Config {
    pub db_url: String,
    pub jwt_secret: String,
    pub qr_secret: String,
    pub jwt_maxage: i64,
    pub port: u32,
    pub aws_access_key: String,
    pub aws_secret_key: String,
    pub aws_region: String,
    pub s3_bucket: String,
}

/// The values of the service's environment variables; `None` where one is
/// not set (or not text).
#[derive(Debug)]
pub struct EnvValues {
    pub database_url: Option<String>,
    pub jwt_secret: Option<String>,
    pub qr_secret: Option<String>,
    pub jwt_maxage: Option<String>,
    pub port: Option<String>,
    pub aws_access_key_id: Option<String>,
    pub aws_secret_access_key: Option<String>,
    pub aws_region: Option<String>,
    pub s3_bucket: Option<String>,
}

/// An ASCII decimal digit.
pub open spec fn is_digit(c: char) -> bool {
    '0' <= c && c <= '9'
}

/// The number the decimal digits `s` write.
pub open spec fn digits_value(s: Seq<char>) -> int
    decreases s.len(),
{
    if s.len() == 0 {
        0
    } else {
        digits_value(s.drop_last()) * 10 + (s.last() as int - 48)
    }
}

/// `s` is one or more decimal digits.
pub open spec fn all_digits(s: Seq<char>) -> bool {
    s.len() > 0 && forall|i: int| 0 <= i < s.len() ==> is_digit(#[trigger] s[i])
}

/// What `str::parse::<u32>` gives: an optional `+`, then digits, of a value
/// that fits.
pub open spec fn parse_u32_spec(s: Seq<char>) -> Option<u32> {
    let body = if s.len() > 0 && s[0] == '+' { s.drop_first() } else { s };
    if all_digits(body) && digits_value(body) <= u32::MAX {
        Some(digits_value(body) as u32)
    } else {
        None
    }
}

/// What `str::parse::<i64>` gives: an optional `+` or `-`, then digits, of a
/// value that fits.
pub open spec fn parse_i64_spec(s: Seq<char>) -> Option<i64> {
    if s.len() > 0 && s[0] == '-' {
        let body = s.drop_first();
        if all_digits(body) && digits_value(body) <= 0x8000_0000_0000_0000 {
            Some((0 - digits_value(body)) as i64)
        } else {
            None
        }
    } else {
        let body = if s.len() > 0 && s[0] == '+' { s.drop_first() } else { s };
        if all_digits(body) && digits_value(body) <= i64::MAX {
            Some(digits_value(body) as i64)
        } else {
            None
        }
    }
}

proof fn lemma_digits_value_step(s: Seq<char>, i: int)
    requires
        0 <= i < s.len(),
    ensures
        digits_value(s.take(i + 1)) == digits_value(s.take(i)) * 10 + (s[i] as int - 48),
{
    assert(s.take(i + 1).drop_last() =~= s.take(i));
}

proof fn lemma_digits_value_nonneg(s: Seq<char>)
    requires
        forall|i: int| 0 <= i < s.len() ==> is_digit(#[trigger] s[i]),
    ensures
        digits_value(s) >= 0,
    decreases s.len(),
{
    if s.len() > 0 {
        lemma_digits_value_nonneg(s.drop_last());
        assert(is_digit(s[s.len() - 1]));
    }
}

proof fn lemma_digits_value_grows(s: Seq<char>, i: int)
    requires
        0 <= i <= s.len(),
        forall|k: int| 0 <= k < s.len() ==> is_digit(#[trigger] s[k]),
    ensures
        digits_value(s.take(i)) <= digits_value(s),
    decreases s.len() - i,
{
    if i < s.len() {
        lemma_digits_value_step(s, i);
        lemma_digits_value_nonneg(s.take(i));
        assert(is_digit(s[i]));
        lemma_digits_value_grows(s, i + 1);
    } else {
        assert(s.take(i) =~= s);
    }
}

/// The value of the digits of `s` from `start` on, where they are one or more
/// digits and the value is at most `limit`.
fn digits_up_to(s: &str, start: usize, limit: u128) -> (r: Option<u128>)
    requires
        start <= s@.len(),
        limit <= u64::MAX,
    ensures
        match r {
            Some(v) => all_digits(s@.skip(start as int)) && v == digits_value(s@.skip(start as int)) && v <= limit,
            None => !(all_digits(s@.skip(start as int)) && digits_value(s@.skip(start as int)) <= limit),
        },
{
    let n = s.unicode_len();
    let ghost body = s@.skip(start as int);
    if start >= n {
        return None;
    }
    let mut value: u128 = 0;
    let mut i: usize = start;
    while i < n
        invariant
            n == s@.len(),
            start <= i <= n,
            body == s@.skip(start as int),
            limit <= u64::MAX,
            forall|k: int| 0 <= k < i - start ==> is_digit(#[trigger] body[k]),
            value == digits_value(body.take(i - start)),
            value <= limit,
        decreases n - i,
    {
        let c = s.get_char(i);
        if !('0' <= c && c <= '9') {
            proof {
                assert(body[i - start] == c);
            }
            return None;
        }
        proof {
            lemma_digits_value_step(body, i - start);
            assert(body[i - start] == c);
        }
        let d = (c as u128) - 48;
        let next = value * 10 + d;
        if next > limit {
            proof {
                assert forall|k: int| 0 <= k < i + 1 - start implies is_digit(#[trigger] body[k]) by {}
                if all_digits(body) {
                    lemma_digits_value_grows(body, i + 1 - start);
                }
            }
            return None;
        }
        value = next;
        i = i + 1;
    }
    proof {
        assert(body.take(n - start) =~= body);
    }
    Some(value)
}

/// `str::parse::<u32>`.
pub fn parse_u32(s: &str) -> (r: Option<u32>)
    ensures
        r == parse_u32_spec(s@),
{
    let n = s.unicode_len();
    let start: usize = if n > 0 && s.get_char(0) == '+' { 1 } else { 0 };
    proof {
        if start == 1 {
            assert(s@.drop_first() =~= s@.skip(1));
        } else {
            assert(s@ =~= s@.skip(0));
        }
    }
    match digits_up_to(s, start, 0xffff_ffff) {
        Some(v) => Some(v as u32),
        None => None,
    }
}

/// `str::parse::<i64>`.
pub fn parse_i64(s: &str) -> (r: Option<i64>)
    ensures
        r == parse_i64_spec(s@),
{
    let n = s.unicode_len();
    if n > 0 && s.get_char(0) == '-' {
        proof {
            assert(s@.drop_first() =~= s@.skip(1));
        }
        match digits_up_to(s, 1, 0x8000_0000_0000_0000) {
            Some(v) => {
                if v == 0x8000_0000_0000_0000 {
                    Some(i64::MIN)
                } else {
                    Some(0 - (v as i64))
                }
            },
            None => None,
        }
    } else {
        let start: usize = if n > 0 && s.get_char(0) == '+' { 1 } else { 0 };
        proof {
            if start == 1 {
                assert(s@.drop_first() =~= s@.skip(1));
            } else {
                assert(s@ =~= s@.skip(0));
            }
        }
        match digits_up_to(s, start, 0x7fff_ffff_ffff_ffff) {
            Some(v) => Some(v as i64),
            None => None,
        }
    }
}


/// The port the service listens on where none is set.
pub open spec fn default_port() -> Seq<char> {
    "8080"@
}

/// The text of the port setting.
pub open spec fn port_text(v: Option<Seq<char>>) -> Seq<char> {
    match v {
        Some(p) => p,
        None => default_port(),
    }
}

/// The message of the first setting that is missing or unreadable, in the
/// order the service reads them; `None` where all are good.
pub open spec fn first_config_error(v: EnvValues) -> Option<Seq<char>> {
    if v.database_url is None {
        Some("Database Url does not exist"@)
    } else if v.jwt_secret is None {
        Some("jwt secret does not exist"@)
    } else if v.qr_secret is None {
        Some("qr secret does not exist"@)
    } else if v.jwt_maxage is None {
        Some("jwt expiration time does not exist"@)
    } else if parse_u32_spec(port_text(opt_text(v.port))) is None {
        Some("port number must be a u32"@)
    } else if v.aws_access_key_id is None {
        Some("AWS_ACCESS_KEY_ID missing"@)
    } else if v.aws_secret_access_key is None {
        Some("AWS_SECRET_ACCESS_KEY missing"@)
    } else if v.aws_region is None {
        Some("AWS_REGION missing"@)
    } else if v.s3_bucket is None {
        Some("S3_BUCKET missing"@)
    } else if parse_i64_spec(v.jwt_maxage->Some_0@) is None {
        Some("expiration must be a i16"@)
    } else {
        None
    }
}

/// The text of a setting that must be set, or the message that it is not.
fn required(v: Option<String>, message: &str) -> (r: Result<String, String>)
    ensures
        match v {
            Some(t) => r matches Ok(u) && u@ == t@,
            None => r matches Err(m) && m@ == message@,
        },
{
    match v {
        Some(t) => Ok(t),
        None => Err(message.to_owned()),
    }
}

impl Config {
    /// The settings the environment's values give, or the message of the
    /// first one that is missing or unreadable. The port is 8080 where none
    /// is set.
    pub fn from_values(v: EnvValues) -> (r: Result<Config, String>)
        ensures
            match first_config_error(v) {
                Some(m) => r matches Err(e) && e@ == m,
                None => r matches Ok(c)
                    && opt_text(v.database_url) == Some(c.db_url@)
                    && opt_text(v.jwt_secret) == Some(c.jwt_secret@)
                    && opt_text(v.qr_secret) == Some(c.qr_secret@)
                    && parse_i64_spec(v.jwt_maxage->Some_0@) == Some(c.jwt_maxage)
                    && parse_u32_spec(port_text(opt_text(v.port))) == Some(c.port)
                    && opt_text(v.aws_access_key_id) == Some(c.aws_access_key@)
                    && opt_text(v.aws_secret_access_key) == Some(c.aws_secret_key@)
                    && opt_text(v.aws_region) == Some(c.aws_region@)
                    && opt_text(v.s3_bucket) == Some(c.s3_bucket@),
            },
    {
        let ghost v0 = v;
        let EnvValues {
            database_url, jwt_secret, qr_secret, jwt_maxage, port, aws_access_key_id,
            aws_secret_access_key, aws_region, s3_bucket,
        } = v;
        let db_url = required(database_url, "Database Url does not exist")?;
        let jwt_secret = required(jwt_secret, "jwt secret does not exist")?;
        let qr_secret = required(qr_secret, "qr secret does not exist")?;
        let jwt_maxage = required(jwt_maxage, "jwt expiration time does not exist")?;
        let port_value = match port {
            Some(p) => parse_u32(p.as_str()),
            None => parse_u32("8080"),
        };
        let port = match port_value {
            Some(p) => p,
            None => return Err("port number must be a u32".to_owned()),
        };
        let aws_access_key = required(aws_access_key_id, "AWS_ACCESS_KEY_ID missing")?;
        let aws_secret_key = required(aws_secret_access_key, "AWS_SECRET_ACCESS_KEY missing")?;
        let aws_region = required(aws_region, "AWS_REGION missing")?;
        let s3_bucket = required(s3_bucket, "S3_BUCKET missing")?;
        let jwt_maxage = match parse_i64(jwt_maxage.as_str()) {
            Some(m) => m,
            None => return Err("expiration must be a i16".to_owned()),
        };
        Ok(Config { db_url, jwt_secret, qr_secret, jwt_maxage, port, aws_access_key, aws_secret_key, aws_region, s3_bucket })
    }
}

/// Where no port is set the service listens on port 8080.
pub proof fn unset_port_is_8080()
    ensures
        parse_u32_spec(port_text(None)) == Some(8080u32),
{
    reveal_strlit("8080");
    let s = port_text(None);
    assert(s =~= seq!['8', '0', '8', '0']);
    assert(s.drop_last().drop_last().drop_last().drop_last() =~= Seq::<char>::empty());
    assert(digits_value(s.take(1)) == 8) by {
        assert(s.take(1).drop_last() =~= Seq::<char>::empty());
        assert(digits_value(s.take(1).drop_last()) == 0);
        assert(s.take(1).last() == '8');
        assert('8' as int == 56);
    }
    assert(s.take(2).last() == '0' && s.take(3).last() == '8' && s.take(4).last() == '0');
    assert('0' as int == 48);
    assert(s.take(2).drop_last() =~= s.take(1));
    assert(s.take(3).drop_last() =~= s.take(2));
    assert(s.take(4).drop_last() =~= s.take(3));
    assert(s.take(4) =~= s);
    assert(digits_value(s.take(2)) == 80);
    assert(digits_value(s.take(3)) == 808);
    assert(digits_value(s) == 8080);
    assert(all_digits(s));
}

/// The settings are read exactly when every variable is set, the port (8080
/// where unset) reads as a `u32` and the token lifetime as an `i64`.
pub proof fn settings_read_iff_all_set(v: EnvValues)
    ensures
        first_config_error(v) is None <==> (
            v.database_url is Some && v.jwt_secret is Some && v.qr_secret is Some && v.jwt_maxage is Some
            && parse_u32_spec(port_text(opt_text(v.port))) is Some
            && v.aws_access_key_id is Some && v.aws_secret_access_key is Some && v.aws_region is Some
            && v.s3_bucket is Some && parse_i64_spec(v.jwt_maxage->Some_0@) is Some
        ),
{
}

} // verus!
