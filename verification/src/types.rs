//! Primitive manifest value types and their format rules.
//!
//! Every type here wraps one JSON scalar.  Its format rule is written as a
//! spec predicate over the string's characters, and the checker is verified
//! against that predicate, so `from_string` succeeds exactly on the strings
//! the rule admits.

use vstd::prelude::*;
use vstd::string::StrSliceExecFns;

use crate::json::{json_eq, lookup, spec_lookup, Json};
use crate::util::{
    ent_keys, is_leaf_msg, key_if, leaf, lemma_obj_err_not_empty, obj_err_rel, req_err_rel,
    req_valid, req_value_rel, required, Errors, Parseable, ParseResult, StringWrapper,
};

verus! {

// ---------------------------------------------------------------------------
// Character classes and token runs.
// ---------------------------------------------------------------------------
/// A lower-case ASCII letter or an ASCII digit.
pub open spec fn is_lower_alnum(c: char) -> bool {
    (97 <= c as u32 && c as u32 <= 122) || (48 <= c as u32 && c as u32 <= 57)
}

/// A separator allowed between token runs: the full set `-._~/` for AC
/// identifiers, `-` alone for AC names.
pub open spec fn is_token_sep(c: char, extended: bool) -> bool {
    if extended {
        c == '-' || c == '.' || c == '_' || c == '~' || c == '/'
    } else {
        c == '-'
    }
}

pub open spec fn is_token_char(c: char, extended: bool) -> bool {
    is_lower_alnum(c) || is_token_sep(c, extended)
}

/// One or more runs of lower-case alphanumerics joined by single separators:
/// the string is non-empty, starts and ends with an alphanumeric, holds only
/// token characters, and never has two adjacent separators.
pub open spec fn valid_token_run(s: Seq<char>, extended: bool) -> bool {
    &&& s.len() > 0
    &&& forall|i: int| 0 <= i < s.len() ==> is_token_char(#[trigger] s[i], extended)
    &&& is_lower_alnum(s[0])
    &&& is_lower_alnum(s[s.len() - 1])
    &&& forall|i: int|
        0 <= i < s.len() - 1 ==> !(is_token_sep(#[trigger] s[i], extended) && is_token_sep(
            s[i + 1],
            extended,
        ))
}

/// The AC identifier rule, `^[a-z0-9]+([-._~/][a-z0-9]+)*$`.
pub open spec fn valid_ac_identifier(s: Seq<char>) -> bool {
    valid_token_run(s, true)
}

/// The AC name rule, `^[a-z0-9]+(-[a-z0-9]+)*$`.
pub open spec fn valid_ac_name(s: Seq<char>) -> bool {
    valid_token_run(s, false)
}

fn lower_alnum(c: char) -> (r: bool)
    ensures
        r == is_lower_alnum(c),
{
    let u = c as u32;
    (97 <= u && u <= 122) || (48 <= u && u <= 57)
}

fn token_sep(c: char, extended: bool) -> (r: bool)
    ensures
        r == is_token_sep(c, extended),
{
    if extended {
        c == '-' || c == '.' || c == '_' || c == '~' || c == '/'
    } else {
        c == '-'
    }
}

#[verifier::loop_isolation(false)]
fn check_token_run(s: &String, extended: bool) -> (r: bool)
    ensures
        r == valid_token_run(s@, extended),
{
    let st = s.as_str();
    let n = st.unicode_len();
    if n == 0 {
        return false;
    }
    if !lower_alnum(st.get_char(0)) {
        return false;
    }
    let mut prev_sep = false;
    let mut i: usize = 0;
    while i < n
        invariant
            0 <= i <= n,
            n as int == s@.len(),
            forall|k: int| 0 <= k < i as int ==> is_token_char(#[trigger] s@[k], extended),
            forall|k: int|
                0 <= k < i as int - 1 ==> !(is_token_sep(#[trigger] s@[k], extended)
                    && is_token_sep(s@[k + 1], extended)),
            prev_sep == (i > 0 && is_token_sep(s@[i as int - 1], extended)),
        decreases n - i,
    {
        let c = st.get_char(i);
        let sep = token_sep(c, extended);
        if !sep && !lower_alnum(c) {
            assert(!is_token_char(s@[i as int], extended));
            return false;
        }
        if sep && prev_sep {
            assert(is_token_sep(s@[i as int - 1], extended) && is_token_sep(
                s@[i as int],
                extended,
            ));
            return false;
        }
        prev_sep = sep;
        i = i + 1;
    }
    if prev_sep {
        assert(!is_lower_alnum(s@[s@.len() - 1]));
        return false;
    }
    assert(is_token_char(s@[s@.len() - 1], extended));
    true
}

// ---------------------------------------------------------------------------
// AC identifier.
// ---------------------------------------------------------------------------
/// A dot/slash/tilde/hyphen-separated lower-case token, used for manifest,
/// image and dependency names.
pub struct ACIdentifier(String);

impl View for ACIdentifier {
    type V = Seq<char>;

    closed spec fn view(&self) -> Seq<char> {
        self.0@
    }
}

impl ACIdentifier {
    /// The identifier's well-formedness: established by `from_string` and
    /// never changed afterwards.
    pub open spec fn wf(&self) -> bool {
        valid_ac_identifier(self@)
    }

    pub fn as_str(&self) -> (r: &str)
        ensures
            r@ == self@,
    {
        self.0.as_str()
    }
}

impl StringWrapper for ACIdentifier {
    open spec fn str_valid(s: Seq<char>) -> bool {
        valid_ac_identifier(s)
    }

    open spec fn str_value_rel(s: Seq<char>, v: ACIdentifier) -> bool {
        v@ == s
    }

    open spec fn str_err_rel(s: Seq<char>, e: Errors) -> bool {
        crate::util::is_leaf_msg(e, "has invalid formatting"@)
    }

    fn from_string(s: &String) -> (r: ParseResult<ACIdentifier>) {
        if check_token_run(s, true) {
            Ok(ACIdentifier(s.clone()))
        } else {
            Err(leaf("has invalid formatting"))
        }
    }
}

// ---------------------------------------------------------------------------
// AC name.
// ---------------------------------------------------------------------------
/// A hyphen-separated lower-case token, stricter than `ACIdentifier`: no
/// dots, underscores, tildes or slashes.  Used for ports, mounts and volumes.
pub struct ACName(String);

impl View for ACName {
    type V = Seq<char>;

    closed spec fn view(&self) -> Seq<char> {
        self.0@
    }
}

impl ACName {
    pub open spec fn wf(&self) -> bool {
        valid_ac_name(self@)
    }

    pub fn as_str(&self) -> (r: &str)
        ensures
            r@ == self@,
    {
        self.0.as_str()
    }
}

impl StringWrapper for ACName {
    open spec fn str_valid(s: Seq<char>) -> bool {
        valid_ac_name(s)
    }

    open spec fn str_value_rel(s: Seq<char>, v: ACName) -> bool {
        v@ == s
    }

    open spec fn str_err_rel(s: Seq<char>, e: Errors) -> bool {
        crate::util::is_leaf_msg(e, "must be a valid AC Name"@)
    }

    fn from_string(s: &String) -> (r: ParseResult<ACName>) {
        if check_token_run(s, false) {
            Ok(ACName(s.clone()))
        } else {
            Err(leaf("must be a valid AC Name"))
        }
    }
}

// ---------------------------------------------------------------------------
// AC kind.
// ---------------------------------------------------------------------------
/// The two document kinds a manifest can declare, matched case-sensitively.
pub enum ACKind {
    ImageManifest,
    PodManifest,
}

impl ACKind {
    pub open spec fn spec_of(s: Seq<char>) -> ACKind {
        if s == "ImageManifest"@ {
            ACKind::ImageManifest
        } else {
            ACKind::PodManifest
        }
    }
}

impl StringWrapper for ACKind {
    open spec fn str_valid(s: Seq<char>) -> bool {
        s == "ImageManifest"@ || s == "PodManifest"@
    }

    open spec fn str_value_rel(s: Seq<char>, v: ACKind) -> bool {
        v == ACKind::spec_of(s)
    }

    open spec fn str_err_rel(s: Seq<char>, e: Errors) -> bool {
        crate::util::is_leaf_msg(e, "must be one of \"ImageManifest\" or \"PodManifest\""@)
    }

    fn from_string(s: &String) -> (r: ParseResult<ACKind>) {
        if *s == "ImageManifest".to_owned() {
            Ok(ACKind::ImageManifest)
        } else if *s == "PodManifest".to_owned() {
            Ok(ACKind::PodManifest)
        } else {
            Err(leaf("must be one of \"ImageManifest\" or \"PodManifest\""))
        }
    }
}



// ---------------------------------------------------------------------------
// Decimal numerals.
// ---------------------------------------------------------------------------



pub open spec fn is_digit(c: char) -> bool {
    48 <= c as u32 && c as u32 <= 57
}

pub open spec fn digit_val(c: char) -> int {
    c as u32 - 48
}

/// A decimal numeral without a leading zero; a single `0` stands alone.
pub open spec fn valid_num_str(s: Seq<char>) -> bool {
    &&& s.len() > 0
    &&& forall|i: int| 0 <= i < s.len() ==> is_digit(#[trigger] s[i])
    &&& s.len() > 1 ==> s[0] != '0'
}

/// The numeral's value, most significant digit first.
pub open spec fn str_to_int(s: Seq<char>) -> int
    decreases s.len(),
{
    if s.len() == 0 {
        0
    } else {
        str_to_int(s.drop_last()) * 10 + digit_val(s.last())
    }
}

proof fn lemma_str_to_int_nonneg(s: Seq<char>)
    requires
        forall|i: int| 0 <= i < s.len() ==> is_digit(#[trigger] s[i]),
    ensures
        str_to_int(s) >= 0,
    decreases s.len(),
{
    if s.len() > 0 {
        lemma_str_to_int_nonneg(s.drop_last());
    }
}

/// Appending digits never shrinks a numeral's value.
proof fn lemma_str_to_int_prefix(s: Seq<char>, k: int)
    requires
        0 <= k <= s.len(),
        forall|i: int| 0 <= i < s.len() ==> is_digit(#[trigger] s[i]),
    ensures
        str_to_int(s.subrange(0, k)) <= str_to_int(s),
    decreases s.len() - k,
{
    if k < s.len() {
        lemma_str_to_int_prefix(s, k + 1);
        let p1 = s.subrange(0, k + 1);
        assert(p1.drop_last() =~= s.subrange(0, k));
        assert(p1.last() == s[k]);
        lemma_str_to_int_nonneg(s.subrange(0, k));
    } else {
        assert(s.subrange(0, k) =~= s);
    }
}

/// The first occurrence of `c` in `s` at or after `from`, or `s.len()`.
pub open spec fn find_char_from(s: Seq<char>, c: char, from: int) -> int
    decreases s.len() - from,
{
    if from < 0 || from >= s.len() {
        s.len() as int
    } else if s[from] == c {
        from
    } else {
        find_char_from(s, c, from + 1)
    }
}

#[verifier::loop_isolation(false)]
fn find_char(s: &str, c: char, start: usize) -> (r: usize)
    requires
        start as int <= s@.len(),
    ensures
        r as int == find_char_from(s@, c, start as int),
        start <= r,
        r as int <= s@.len(),
{
    let n = s.unicode_len();
    let mut i: usize = start;
    while i < n
        invariant
            start <= i <= n,
            n as int == s@.len(),
            find_char_from(s@, c, start as int) == find_char_from(s@, c, i as int),
        decreases n - i,
    {
        if s.get_char(i) == c {
            return i;
        }
        i = i + 1;
    }
    i
}

/// Parses `s[start..end]` as a decimal `u64`, rejecting empty segments,
/// leading zeros, non-digits and values over `u64::MAX`.
#[verifier::loop_isolation(false)]
fn parse_u64_seg(s: &str, start: usize, end: usize) -> (r: Option<u64>)
    requires
        start as int <= end as int <= s@.len(),
    ensures
        ({
            let seg = s@.subrange(start as int, end as int);
            match r {
                Some(x) => valid_num_str(seg) && x as int == str_to_int(seg),
                None => !(valid_num_str(seg) && str_to_int(seg) <= u64::MAX as int),
            }
        }),
{
    let ghost seg = s@.subrange(start as int, end as int);
    if start == end {
        return None;
    }
    if end - start > 1 && s.get_char(start) == '0' {
        assert(seg[0] == '0' && seg.len() > 1);
        return None;
    }
    let mut acc: u64 = 0;
    let mut i: usize = start;
    while i < end
        invariant
            start <= i <= end,
            forall|k: int| 0 <= k < i as int - start as int ==> is_digit(#[trigger] seg[k]),
            acc as int == str_to_int(s@.subrange(start as int, i as int)),
        decreases end - i,
    {
        let c = s.get_char(i);
        let u = c as u32;
        if !(48 <= u && u <= 57) {
            assert(!is_digit(seg[i as int - start as int]));
            return None;
        }
        let wide: u128 = acc as u128 * 10 + (u - 48) as u128;
        proof {
            let p1 = s@.subrange(start as int, i as int + 1);
            assert(p1.drop_last() =~= s@.subrange(start as int, i as int));
            assert(p1.last() == s@[i as int]);
            assert(wide as int == str_to_int(p1));
        }
        if wide > u64::MAX as u128 {
            proof {
                if valid_num_str(seg) && str_to_int(seg) <= u64::MAX as int {
                    assert(seg.subrange(0, i as int + 1 - start as int) =~= s@.subrange(
                        start as int,
                        i as int + 1,
                    ));
                    lemma_str_to_int_prefix(seg, i as int + 1 - start as int);
                    assert(false);
                }
            }
            return None;
        }
        acc = wide as u64;
        i = i + 1;
    }
    assert(s@.subrange(start as int, i as int) =~= seg);
    assert(valid_num_str(seg));
    Some(acc)
}


// ---------------------------------------------------------------------------
// AC version.
// ---------------------------------------------------------------------------
pub open spec fn version_dot1(s: Seq<char>) -> int {
    find_char_from(s, '.', 0)
}

pub open spec fn version_dot2(s: Seq<char>) -> int {
    find_char_from(s, '.', version_dot1(s) + 1)
}

pub open spec fn version_major_str(s: Seq<char>) -> Seq<char> {
    s.subrange(0, version_dot1(s))
}

pub open spec fn version_minor_str(s: Seq<char>) -> Seq<char> {
    s.subrange(version_dot1(s) + 1, version_dot2(s))
}

pub open spec fn version_patch_str(s: Seq<char>) -> Seq<char> {
    s.subrange(version_dot2(s) + 1, s.len() as int)
}

/// The semantic-version rule: three dot-separated decimal numerals, none
/// empty, none with a leading zero.
pub open spec fn valid_ac_version_syntax(s: Seq<char>) -> bool {
    &&& version_dot1(s) < s.len()
    &&& version_dot2(s) < s.len()
    &&& valid_num_str(version_major_str(s))
    &&& valid_num_str(version_minor_str(s))
    &&& valid_num_str(version_patch_str(s))
}

/// A version this crate accepts: well-formed syntax whose three components
/// fit the `u64` fields that hold them.
pub open spec fn valid_ac_version(s: Seq<char>) -> bool {
    &&& valid_ac_version_syntax(s)
    &&& str_to_int(version_major_str(s)) <= u64::MAX as int
    &&& str_to_int(version_minor_str(s)) <= u64::MAX as int
    &&& str_to_int(version_patch_str(s)) <= u64::MAX as int
}

/// A semantic version, `major.minor.patch`.
pub struct ACVersion {
    pub major: u64,
    pub minor: u64,
    pub patch: u64,
}

impl StringWrapper for ACVersion {
    open spec fn str_valid(s: Seq<char>) -> bool {
        valid_ac_version(s)
    }

    open spec fn str_value_rel(s: Seq<char>, v: ACVersion) -> bool {
        &&& v.major as int == str_to_int(version_major_str(s))
        &&& v.minor as int == str_to_int(version_minor_str(s))
        &&& v.patch as int == str_to_int(version_patch_str(s))
    }

    open spec fn str_err_rel(s: Seq<char>, e: Errors) -> bool {
        crate::util::is_leaf_msg(e, "must be a valid AC Version"@)
    }

    fn from_string(s: &String) -> (r: ParseResult<ACVersion>) {
        let st = s.as_str();
        let n = st.unicode_len();
        let i = find_char(st, '.', 0);
        if i == n {
            return Err(leaf("must be a valid AC Version"));
        }
        let j = find_char(st, '.', i + 1);
        if j == n {
            return Err(leaf("must be a valid AC Version"));
        }
        let major = parse_u64_seg(st, 0, i);
        let minor = parse_u64_seg(st, i + 1, j);
        let patch = parse_u64_seg(st, j + 1, n);
        match (major, minor, patch) {
            (Some(ma), Some(mi), Some(pa)) => Ok(ACVersion { major: ma, minor: mi, patch: pa }),
            _ => Err(leaf("must be a valid AC Version")),
        }
    }
}

// ---------------------------------------------------------------------------
// Image ID.
// ---------------------------------------------------------------------------
pub open spec fn is_hex_digit(c: char) -> bool {
    is_digit(c) || (65 <= c as u32 && c as u32 <= 70) || (97 <= c as u32 && c as u32 <= 102)
}

pub open spec fn image_id_dash(s: Seq<char>) -> int {
    find_char_from(s, '-', 0)
}

pub open spec fn image_id_algo_str(s: Seq<char>) -> Seq<char> {
    s.subrange(0, image_id_dash(s))
}

pub open spec fn image_id_value_str(s: Seq<char>) -> Seq<char> {
    s.subrange(image_id_dash(s) + 1, s.len() as int)
}

/// The image-ID shape `<algo>-<hex>`: a non-empty run without dashes, one
/// dash, then one or more hexadecimal digits.
pub open spec fn valid_image_id_syntax(s: Seq<char>) -> bool {
    &&& 0 < image_id_dash(s)
    &&& image_id_dash(s) + 1 < s.len()
    &&& forall|i: int| image_id_dash(s) < i < s.len() ==> is_hex_digit(#[trigger] s[i])
}

/// A well-shaped image ID whose algorithm tag is the one supported hash.
pub open spec fn valid_image_id(s: Seq<char>) -> bool {
    valid_image_id_syntax(s) && image_id_algo_str(s) == "sha512"@
}

pub enum HashAlgorithm {
    SHA512,
}

/// A content address: a hash algorithm tag and the hex digest it names.
pub struct ImageID {
    pub hash: HashAlgorithm,
    pub value: String,
}

impl StringWrapper for ImageID {
    open spec fn str_valid(s: Seq<char>) -> bool {
        valid_image_id(s)
    }

    open spec fn str_value_rel(s: Seq<char>, v: ImageID) -> bool {
        v.hash == HashAlgorithm::SHA512 && v.value@ == image_id_value_str(s)
    }

    /// A malformed ID and a well-formed ID with an unsupported algorithm
    /// fail with distinct messages.
    open spec fn str_err_rel(s: Seq<char>, e: Errors) -> bool {
        if valid_image_id_syntax(s) {
            crate::util::is_leaf_msg(e, "must be a valid Image ID (invalid hash algorithm)"@)
        } else {
            crate::util::is_leaf_msg(e, "must be a valid Image ID"@)
        }
    }

    #[verifier::loop_isolation(false)]
    fn from_string(s: &String) -> (r: ParseResult<ImageID>) {
        let st = s.as_str();
        let n = st.unicode_len();
        let dash = find_char(st, '-', 0);
        if dash == 0 || dash >= n || dash + 1 >= n {
            return Err(leaf("must be a valid Image ID"));
        }
        let mut k: usize = dash + 1;
        while k < n
            invariant
                dash as int + 1 <= k as int && k as int <= n as int,
                forall|t: int| (dash as int) < t && t < k as int ==> is_hex_digit(#[trigger] s@[t]),
            decreases n - k,
        {
            let c = st.get_char(k);
            let u = c as u32;
            if !((48 <= u && u <= 57) || (65 <= u && u <= 70) || (97 <= u && u <= 102)) {
                assert(!is_hex_digit(s@[k as int]));
                return Err(leaf("must be a valid Image ID"));
            }
            k = k + 1;
        }
        let algo = st.substring_char(0, dash).to_owned();
        if algo == "sha512".to_owned() {
            let value = st.substring_char(dash + 1, n).to_owned();
            Ok(ImageID { hash: HashAlgorithm::SHA512, value })
        } else {
            Err(leaf("must be a valid Image ID (invalid hash algorithm)"))
        }
    }
}

// ---------------------------------------------------------------------------
// Timestamps.
// ---------------------------------------------------------------------------
/// Whether a string is an RFC3339 date-and-time with an explicit UTC offset;
/// decided by the outside parser this crate relies on.
pub uninterp spec fn is_rfc3339(s: Seq<char>) -> bool;

/// Relies on chrono's `DateTime::parse_from_rfc3339`: a pure parser, so
/// whether a string parses depends on its characters alone.
#[verifier::external_body]
fn rfc3339_parses(s: &str) -> (r: bool)
    ensures
        r == is_rfc3339(s@),
{
    chrono::DateTime::parse_from_rfc3339(s).is_ok()
}

/// A point in time, kept as its RFC3339 source text.
pub struct Timestamps(String);

impl View for Timestamps {
    type V = Seq<char>;

    closed spec fn view(&self) -> Seq<char> {
        self.0@
    }
}

impl Timestamps {
    pub open spec fn wf(&self) -> bool {
        is_rfc3339(self@)
    }

    pub fn as_str(&self) -> (r: &str)
        ensures
            r@ == self@,
    {
        self.0.as_str()
    }
}

impl StringWrapper for Timestamps {
    open spec fn str_valid(s: Seq<char>) -> bool {
        is_rfc3339(s)
    }

    open spec fn str_value_rel(s: Seq<char>, v: Timestamps) -> bool {
        v@ == s
    }

    open spec fn str_err_rel(s: Seq<char>, e: Errors) -> bool {
        crate::util::is_leaf_msg(e, "must be a valid RFC3339 timestamp"@)
    }

    fn from_string(s: &String) -> (r: ParseResult<Timestamps>) {
        if rfc3339_parses(s.as_str()) {
            let t = Timestamps(s.clone());
            proof {
                assert(t@ == s@);
                assert(<Timestamps as StringWrapper>::str_valid(s@));
                assert(<Timestamps as StringWrapper>::str_value_rel(s@, t));
            }
            Ok(t)
        } else {
            let e = leaf("must be a valid RFC3339 timestamp");
            proof {
                assert(!<Timestamps as StringWrapper>::str_valid(s@));
                assert(<Timestamps as StringWrapper>::str_err_rel(s@, e));
            }
            Err(e)
        }
    }
}

// ---------------------------------------------------------------------------
// URL values.
// ---------------------------------------------------------------------------
/// Whether a string parses as an absolute URL; decided by the outside parser
/// this crate relies on.
pub uninterp spec fn is_parseable_url(s: Seq<char>) -> bool;

/// Relies on `url::Url::parse`: a pure parser, so whether a string parses
/// depends on its characters alone.
#[verifier::external_body]
fn url_parses(s: &str) -> (r: bool)
    ensures
        r == is_parseable_url(s@),
{
    url::Url::parse(s).is_ok()
}

/// An absolute URL, kept as its source text.
pub struct UrlAddress(String);

impl View for UrlAddress {
    type V = Seq<char>;

    closed spec fn view(&self) -> Seq<char> {
        self.0@
    }
}

impl UrlAddress {
    pub open spec fn wf(&self) -> bool {
        is_parseable_url(self@)
    }

    pub fn as_str(&self) -> (r: &str)
        ensures
            r@ == self@,
    {
        self.0.as_str()
    }
}

impl StringWrapper for UrlAddress {
    open spec fn str_valid(s: Seq<char>) -> bool {
        is_parseable_url(s)
    }

    open spec fn str_value_rel(s: Seq<char>, v: UrlAddress) -> bool {
        v@ == s
    }

    open spec fn str_err_rel(s: Seq<char>, e: Errors) -> bool {
        crate::util::is_leaf_msg(e, "must be a valid URL"@)
    }

    fn from_string(s: &String) -> (r: ParseResult<UrlAddress>) {
        if url_parses(s.as_str()) {
            let u = UrlAddress(s.clone());
            proof {
                assert(u@ == s@);
                assert(<UrlAddress as StringWrapper>::str_valid(s@));
                assert(<UrlAddress as StringWrapper>::str_value_rel(s@, u));
            }
            Ok(u)
        } else {
            let e = leaf("must be a valid URL");
            proof {
                assert(!<UrlAddress as StringWrapper>::str_valid(s@));
                assert(<UrlAddress as StringWrapper>::str_err_rel(s@, e));
            }
            Err(e)
        }
    }
}


// ---------------------------------------------------------------------------
// Isolators.
// ---------------------------------------------------------------------------
pub open spec fn isolator_fields_valid(fields: Seq<(String, Json)>) -> bool {
    &&& req_valid::<ACIdentifier>(fields, "name"@)
    &&& spec_lookup(fields, "value"@) is Some
}

pub open spec fn isolator_bad_keys(fields: Seq<(String, Json)>) -> Seq<Seq<char>> {
    key_if("name"@, !req_valid::<ACIdentifier>(fields, "name"@)) + key_if(
        "value"@,
        spec_lookup(fields, "value"@) is None,
    )
}

pub open spec fn isolator_field_err(fields: Seq<(String, Json)>, k: Seq<char>, e: Errors) -> bool {
    if k == "name"@ {
        req_err_rel::<ACIdentifier>(fields, k, e)
    } else if k == "value"@ {
        is_leaf_msg(e, "must be defined"@)
    } else {
        false
    }
}

/// A named, opaquely-valued constraint: its `value` is any JSON subtree,
/// stored verbatim and never interpreted.
pub struct Isolator {
    pub name: ACIdentifier,
    pub value: Json,
}

impl Parseable for Isolator {
    open spec fn json_valid(j: Json) -> bool {
        match j {
            Json::Object(fields) => isolator_fields_valid(fields@),
            _ => false,
        }
    }

    open spec fn value_rel(j: Json, v: Isolator) -> bool {
        match j {
            Json::Object(fields) => {
                &&& req_value_rel::<ACIdentifier>(fields@, "name"@, v.name)
                &&& match spec_lookup(fields@, "value"@) {
                    Some(jv) => json_eq(v.value, jv),
                    None => false,
                }
            },
            _ => false,
        }
    }

    open spec fn err_rel(j: Json, e: Errors) -> bool {
        match j {
            Json::Object(fields) => obj_err_rel(
                e,
                isolator_bad_keys(fields@),
                |k: Seq<char>, se: Errors| isolator_field_err(fields@, k, se),
            ),
            _ => is_leaf_msg(e, "must be an object"@),
        }
    }

    fn from_json(json: &Json) -> (r: ParseResult<Isolator>) {
        match json {
            Json::Object(fields) => {
                proof {
                    reveal_strlit("name");
                    reveal_strlit("value");
                }
                let mut errs: Vec<(String, Errors)> = Vec::new();
                let name = match required::<ACIdentifier>(fields, &"name".to_owned()) {
                    Ok(v) => Some(v),
                    Err(e) => {
                        errs.push(("name".to_owned(), e));
                        None
                    },
                };
                let value = match lookup(fields, &"value".to_owned()) {
                    Some(j) => Some(j.clone()),
                    None => {
                        errs.push(("value".to_owned(), leaf("must be defined")));
                        None
                    },
                };
                if errs.len() == 0 {
                    match (name, value) {
                        (Some(n), Some(v)) => Ok(Isolator { name: n, value: v }),
                        _ => vstd::pervasive::unreached(),
                    }
                } else {
                    proof {
                        assert(ent_keys(errs@) =~= isolator_bad_keys(fields@));
                        lemma_obj_err_not_empty(
                            Errors::Object(errs),
                            isolator_bad_keys(fields@),
                            |k: Seq<char>, se: Errors| isolator_field_err(fields@, k, se),
                        );
                    }
                    Err(Errors::Object(errs))
                }
            },
            _ => Err(leaf("must be an object")),
        }
    }
}


} // verus!
