//! The URI-style grammar for addressing files across partitions:
//! `scheme(argument):path`, with schemes `boot`, `guid` and `iso`.
use vstd::prelude::*;

use crate::guid::Guid;
use crate::guid::guid_chars;
use crate::guid::lemma_guid_chars_roundtrip;
use crate::guid::parse_guid_chars;
use crate::text::str_eq;

verus! {

/// Which partition a path reference points into.
#[derive(Debug, Clone)]
pub enum PartitionReference {
    /// The partition the boot manager itself was loaded from.
    Boot,
    /// The partition with this GPT unique partition identifier.
    Guid(Guid),
    /// An optical-disc image found at this path on the boot partition.
    Iso(String),
}

/// A file location: a partition together with an absolute path inside it.
#[derive(Debug, Clone)]
pub struct PathReference {
    /// Which partition contains the file.
    pub location: PartitionReference,
    /// Path within that partition.
    pub path: String,
}

/// Why a path reference failed to parse.
#[derive(Debug, Clone)]
pub enum PathRefParseError {
    /// No `:` between resource and path, or no closing parenthesis.
    MissingDelimiter,
    /// The path component is not acceptable.
    InvalidPath,
    /// The scheme is none of `boot`, `guid` and `iso`.
    UnknownResource(String),
    /// The `guid` argument is not a canonical 36-character identifier.
    InvalidGuid,
    /// No opening parenthesis after the scheme.
    InvalidSyntax,
}

/// Mathematical model of a partition reference.
#[verifier::ext_equal]
pub enum PartitionRefModel {
    Boot,
    Guid(Guid),
    Iso(Seq<char>),
}

/// Mathematical model of a path reference.
#[verifier::ext_equal]
pub struct PathRefModel {
    pub location: PartitionRefModel,
    pub path: Seq<char>,
}

/// Mathematical model of a parse error.
#[verifier::ext_equal]
pub enum ParseErrModel {
    MissingDelimiter,
    InvalidPath,
    UnknownResource(Seq<char>),
    InvalidGuid,
    InvalidSyntax,
}

impl View for PartitionReference {
    type V = PartitionRefModel;

    open spec fn view(&self) -> PartitionRefModel {
        match self {
            PartitionReference::Boot => PartitionRefModel::Boot,
            PartitionReference::Guid(g) => PartitionRefModel::Guid(*g),
            PartitionReference::Iso(p) => PartitionRefModel::Iso(p@),
        }
    }
}

impl View for PathReference {
    type V = PathRefModel;

    open spec fn view(&self) -> PathRefModel {
        PathRefModel { location: self.location@, path: self.path@ }
    }
}

impl View for PathRefParseError {
    type V = ParseErrModel;

    open spec fn view(&self) -> ParseErrModel {
        match self {
            PathRefParseError::MissingDelimiter => ParseErrModel::MissingDelimiter,
            PathRefParseError::InvalidPath => ParseErrModel::InvalidPath,
            PathRefParseError::UnknownResource(s) => ParseErrModel::UnknownResource(s@),
            PathRefParseError::InvalidGuid => ParseErrModel::InvalidGuid,
            PathRefParseError::InvalidSyntax => ParseErrModel::InvalidSyntax,
        }
    }
}

impl PartialEq for PartitionReference {
    fn eq(&self, other: &Self) -> (r: bool) {
        match (self, other) {
            (PartitionReference::Boot, PartitionReference::Boot) => true,
            (PartitionReference::Guid(a), PartitionReference::Guid(b)) => *a == *b,
            (PartitionReference::Iso(a), PartitionReference::Iso(b)) => *a == *b,
            _ => false,
        }
    }
}

impl vstd::std_specs::cmp::PartialEqSpecImpl for PartitionReference {
    open spec fn obeys_eq_spec() -> bool {
        true
    }

    open spec fn eq_spec(&self, other: &Self) -> bool {
        self@ == other@
    }
}

impl PartialEq for PathReference {
    fn eq(&self, other: &Self) -> (r: bool) {
        self.location == other.location && self.path == other.path
    }
}

impl vstd::std_specs::cmp::PartialEqSpecImpl for PathReference {
    open spec fn obeys_eq_spec() -> bool {
        true
    }

    open spec fn eq_spec(&self, other: &Self) -> bool {
        self@ == other@
    }
}

impl PartialEq for PathRefParseError {
    fn eq(&self, other: &Self) -> (r: bool) {
        match (self, other) {
            (PathRefParseError::MissingDelimiter, PathRefParseError::MissingDelimiter) => true,
            (PathRefParseError::InvalidPath, PathRefParseError::InvalidPath) => true,
            (PathRefParseError::UnknownResource(a), PathRefParseError::UnknownResource(b)) => *a
                == *b,
            (PathRefParseError::InvalidGuid, PathRefParseError::InvalidGuid) => true,
            (PathRefParseError::InvalidSyntax, PathRefParseError::InvalidSyntax) => true,
            _ => false,
        }
    }
}

impl vstd::std_specs::cmp::PartialEqSpecImpl for PathRefParseError {
    open spec fn obeys_eq_spec() -> bool {
        true
    }

    open spec fn eq_spec(&self, other: &Self) -> bool {
        self@ == other@
    }
}

/// Index of the first occurrence of `c` in `s` at or after position `i`,
/// or -1 when there is none.
pub open spec fn first_index_from(s: Seq<char>, c: char, i: int) -> int
    decreases s.len() - i,
    when 0 <= i <= s.len()
{
    if i >= s.len() {
        -1
    } else if s[i] == c {
        i
    } else {
        first_index_from(s, c, i + 1)
    }
}

/// Index of the first occurrence of `c` in `s`, or -1 when there is none.
pub open spec fn first_index_of(s: Seq<char>, c: char) -> int {
    first_index_from(s, c, 0)
}

/// The first occurrence is the position whose prefix is free of `c`.
pub proof fn lemma_first_index(s: Seq<char>, c: char, k: int)
    requires
        0 <= k < s.len(),
        s[k] == c,
        forall|j: int| 0 <= j < k ==> s[j] != c,
    ensures
        first_index_of(s, c) == k,
{
    lemma_first_index_step(s, c, k, 0);
}

proof fn lemma_first_index_step(s: Seq<char>, c: char, k: int, i: int)
    requires
        0 <= i <= k < s.len(),
        s[k] == c,
        forall|j: int| i <= j < k ==> s[j] != c,
    ensures
        first_index_from(s, c, i) == k,
    decreases k - i,
{
    if i < k {
        lemma_first_index_step(s, c, k, i + 1);
    }
}

/// What parsing the resource part (before the first `:`) yields.
pub open spec fn spec_parse_partition(r: Seq<char>) -> Result<PartitionRefModel, ParseErrModel> {
    let lp = first_index_of(r, '(');
    if lp < 0 {
        Err(ParseErrModel::InvalidSyntax)
    } else {
        let scheme = r.take(lp);
        let rest = r.skip(lp + 1);
        if rest.len() == 0 || rest.last() != ')' {
            Err(ParseErrModel::MissingDelimiter)
        } else {
            let arg = rest.drop_last();
            if scheme == "boot"@ {
                Ok(PartitionRefModel::Boot)
            } else if scheme == "guid"@ {
                match parse_guid_chars(arg) {
                    Some(g) => Ok(PartitionRefModel::Guid(g)),
                    None => Err(ParseErrModel::InvalidGuid),
                }
            } else if scheme == "iso"@ {
                Ok(PartitionRefModel::Iso(arg))
            } else {
                Err(ParseErrModel::UnknownResource(scheme))
            }
        }
    }
}

/// What parsing a whole path reference yields: the text is split at its
/// first `:` into resource and path, and the resource is parsed.
pub open spec fn spec_parse(s: Seq<char>) -> Result<PathRefModel, ParseErrModel> {
    let ci = first_index_of(s, ':');
    if ci < 0 {
        Err(ParseErrModel::MissingDelimiter)
    } else {
        match spec_parse_partition(s.take(ci)) {
            Ok(loc) => Ok(PathRefModel { location: loc, path: s.skip(ci + 1) }),
            Err(e) => Err(e),
        }
    }
}

/// The serialized prefix of a location: everything before the path.
pub open spec fn spec_uri_prefix(loc: PartitionRefModel) -> Seq<char> {
    match loc {
        PartitionRefModel::Boot => "boot():"@,
        PartitionRefModel::Guid(g) => "guid("@ + guid_chars(g) + "):"@,
        PartitionRefModel::Iso(p) => "iso("@ + p + "):"@,
    }
}

/// The serialized form of a path reference.
pub open spec fn spec_to_uri(x: PathRefModel) -> Seq<char> {
    spec_uri_prefix(x.location) + x.path
}

/// Index of the first occurrence of `c`, or none.
fn find_char(s: &str, c: char) -> (r: Option<usize>)
    ensures
        match r {
            Some(i) => i < s@.len() && s@[i as int] == c && first_index_of(s@, c) == i as int,
            None => first_index_of(s@, c) == -1,
        },
{
    let n = s.unicode_len();
    let mut i: usize = 0;
    while i < n
        invariant
            n == s@.len(),
            i <= n,
            first_index_of(s@, c) == first_index_from(s@, c, i as int),
        decreases n - i,
    {
        if s.get_char(i) == c {
            return Some(i);
        }
        i = i + 1;
    }
    None
}

impl PathReference {
    /// Parse a path reference from its text form. The text is split at its
    /// first `:` into resource and path (`MissingDelimiter` when there is
    /// none), and the resource must read `scheme(argument)`.
    pub fn parse(s: &str) -> (r: Result<PathReference, PathRefParseError>)
        ensures
            match r {
                Ok(p) => spec_parse(s@) == Ok::<PathRefModel, ParseErrModel>(p@),
                Err(e) => spec_parse(s@) == Err::<PathRefModel, ParseErrModel>(e@),
            },
    {
        let n = s.unicode_len();
        match find_char(s, ':') {
            None => Err(PathRefParseError::MissingDelimiter),
            Some(ci) => {
                let resource = s.substring_char(0, ci);
                let path = s.substring_char(ci + 1, n);
                proof {
                    assert(resource@ =~= s@.take(ci as int));
                    assert(path@ =~= s@.skip(ci + 1));
                }
                match PartitionReference::parse(resource) {
                    Ok(location) => Ok(
                        PathReference { location, path: String::from_str(path) },
                    ),
                    Err(e) => Err(e),
                }
            },
        }
    }

    /// Serialize back to the canonical text form, the inverse of `parse`.
    pub fn to_uri(&self) -> (r: String)
        ensures
            r@ == spec_to_uri(self@),
    {
        let mut out = self.location.to_uri_prefix();
        out.append(self.path.as_str());
        out
    }
}

impl PartitionReference {
    /// Parse the resource part: `boot(...)`, `guid(<identifier>)` or
    /// `iso(<image path>)`.
    pub fn parse(s: &str) -> (r: Result<PartitionReference, PathRefParseError>)
        ensures
            match r {
                Ok(p) => spec_parse_partition(s@) == Ok::<PartitionRefModel, ParseErrModel>(p@),
                Err(e) => spec_parse_partition(s@) == Err::<PartitionRefModel, ParseErrModel>(e@),
            },
    {
        let n = s.unicode_len();
        match find_char(s, '(') {
            None => Err(PathRefParseError::InvalidSyntax),
            Some(lp) => {
                let scheme = s.substring_char(0, lp);
                proof {
                    assert(scheme@ =~= s@.take(lp as int));
                }
                if lp + 1 == n || s.get_char(n - 1) != ')' {
                    return Err(PathRefParseError::MissingDelimiter);
                }
                let arg = s.substring_char(lp + 1, n - 1);
                proof {
                    assert(s@.skip(lp + 1).len() > 0);
                    assert(s@.skip(lp + 1).last() == s@[n - 1]);
                    assert(arg@ =~= s@.skip(lp + 1).drop_last());
                }
                if str_eq(scheme, "boot") {
                    Ok(PartitionReference::Boot)
                } else if str_eq(scheme, "guid") {
                    match Guid::parse(arg) {
                        Some(g) => Ok(PartitionReference::Guid(g)),
                        None => Err(PathRefParseError::InvalidGuid),
                    }
                } else if str_eq(scheme, "iso") {
                    Ok(PartitionReference::Iso(String::from_str(arg)))
                } else {
                    Err(PathRefParseError::UnknownResource(String::from_str(scheme)))
                }
            },
        }
    }

    /// Serialize the location to its text prefix, closing `:` included.
    pub fn to_uri_prefix(&self) -> (r: String)
        ensures
            r@ == spec_uri_prefix(self@),
    {
        match self {
            PartitionReference::Boot => String::from_str("boot():"),
            PartitionReference::Guid(g) => {
                let mut out = String::from_str("guid(");
                let text = g.to_text();
                out.append(text.as_str());
                out.append("):");
                out
            },
            PartitionReference::Iso(p) => {
                let mut out = String::from_str("iso(");
                out.append(p.as_str());
                out.append("):");
                out
            },
        }
    }
}


/// A hexadecimal digit character or a hyphen is neither `:` nor `(`.
proof fn lemma_guid_char_kinds(g: Guid)
    ensures
        forall|i: int|
            0 <= i < 36 ==> (#[trigger] guid_chars(g)[i]) != ':' && guid_chars(g)[i] != '(',
{
    assert forall|i: int|
        0 <= i < 36 implies (#[trigger] guid_chars(g)[i]) != ':' && guid_chars(g)[i] != '(' by {
        if !crate::guid::guid_hyphen_pos(i) {
            let d = crate::guid::guid_digit(g, crate::guid::guid_digit_pos(i));
            crate::guid::lemma_guid_digit_bound(g, crate::guid::guid_digit_pos(i));
            if d < 10 {
                assert(((48 + d) as u8) as char as u32 == 48 + d);
            } else {
                assert(((87 + d) as u8) as char as u32 == 87 + d);
            }
            assert((guid_chars(g)[i] as u32) != 58 && (guid_chars(g)[i] as u32) != 40);
        }
    }
}

/// The serialized prefix of a location ends in `:`, holds no other `:`, and
/// parses back (with its trailing `:` removed) to the same location. An
/// image-path argument must itself be free of `:`.
proof fn lemma_prefix_parses(loc: PartitionRefModel)
    requires
        loc matches PartitionRefModel::Iso(p) ==> !p.contains(':'),
    ensures
        spec_uri_prefix(loc).len() >= 1,
        spec_uri_prefix(loc).last() == ':',
        forall|j: int|
            0 <= j < spec_uri_prefix(loc).len() - 1 ==> (#[trigger] spec_uri_prefix(loc)[j])
                != ':',
        spec_parse_partition(spec_uri_prefix(loc).drop_last()) == Ok::<
            PartitionRefModel,
            ParseErrModel,
        >(loc),
{
    reveal_strlit("boot():");
    reveal_strlit("guid(");
    reveal_strlit("iso(");
    reveal_strlit("):");
    reveal_strlit("boot");
    reveal_strlit("guid");
    reveal_strlit("iso");
    reveal_strlit("boot()");
    let pre = spec_uri_prefix(loc);
    let res = pre.drop_last();
    match loc {
        PartitionRefModel::Boot => {
            assert(pre.len() == 7);
            assert(pre[0] == 'b' && pre[1] == 'o' && pre[2] == 'o' && pre[3] == 't' && pre[4]
                == '(' && pre[5] == ')' && pre[6] == ':');
            assert(res =~= "boot()"@);
            lemma_first_index(res, '(', 4);
            assert(res.take(4) =~= "boot"@);
            assert(res.skip(5) =~= seq![')']);
            assert(res.skip(5).drop_last() =~= Seq::<char>::empty());
            assert(spec_parse_partition(res) == Ok::<PartitionRefModel, ParseErrModel>(
                PartitionRefModel::Boot,
            ));
        },
        PartitionRefModel::Guid(g) => {
            let gc = guid_chars(g);
            lemma_guid_char_kinds(g);
            assert(pre.len() == 43);
            assert forall|j: int| 0 <= j < 42 implies (#[trigger] pre[j]) != ':' by {
                if j < 5 {
                    assert(("guid("@)[0] == 'g' && ("guid("@)[1] == 'u' && ("guid("@)[2] == 'i'
                        && ("guid("@)[3] == 'd' && ("guid("@)[4] == '(');
                } else if j < 41 {
                    assert(pre[j] == gc[j - 5]);
                } else {
                    assert(pre[j] == (")"@ + ":"@)[0] || pre[j] == ("):"@)[0]);
                    assert(pre[41] == ("):"@)[0]);
                }
            }
            assert(pre[42] == ("):"@)[1]);
            assert(pre.last() == ':');
            assert(res[4] == '(');
            assert forall|j: int| 0 <= j < 4 implies (#[trigger] res[j]) != '(' by {
                assert(res[j] == ("guid("@)[j]);
            }
            lemma_first_index(res, '(', 4);
            assert(res.take(4) =~= "guid"@);
            assert(res.skip(5) =~= gc + seq![')']);
            assert(res.skip(5).last() == ')');
            assert(res.skip(5).drop_last() =~= gc);
            assert(("guid"@)[0] != ("boot"@)[0]);
            lemma_guid_chars_roundtrip(g);
            assert(parse_guid_chars(res.skip(5).drop_last()) == Some(g));
            assert(spec_parse_partition(res) == Ok::<PartitionRefModel, ParseErrModel>(
                PartitionRefModel::Guid(g),
            ));
        },
        PartitionRefModel::Iso(p) => {
            assert(pre.len() == p.len() + 6);
            assert forall|j: int| 0 <= j < pre.len() - 1 implies (#[trigger] pre[j]) != ':' by {
                if j < 4 {
                    assert(("iso("@)[0] == 'i' && ("iso("@)[1] == 's' && ("iso("@)[2] == 'o' && (
                    "iso("@)[3] == '(');
                } else if j < 4 + p.len() {
                    assert(pre[j] == p[j - 4]);
                    assert(!p.contains(':'));
                } else {
                    assert(pre[j] == ("):"@)[0]);
                }
            }
            assert(pre.last() == ("):"@)[1]);
            assert(res[3] == '(');
            assert forall|j: int| 0 <= j < 3 implies (#[trigger] res[j]) != '(' by {
                assert(res[j] == ("iso("@)[j]);
            }
            lemma_first_index(res, '(', 3);
            assert(res.take(3) =~= "iso"@);
            assert(res.skip(4) =~= p + seq![')']);
            assert(res.skip(4).last() == ')');
            assert(res.skip(4).drop_last() =~= p);
            assert(("iso"@).len() != ("boot"@).len());
            assert(("iso"@).len() != ("guid"@).len());
            assert(spec_parse_partition(res) == Ok::<PartitionRefModel, ParseErrModel>(
                PartitionRefModel::Iso(p),
            ));
        },
    }
}

/// The grammar round-trips: parsing the serialized form of a path reference
/// yields that path reference again. For an image-path location the image
/// path must not contain `:`, since the serialized form is split at its
/// first `:`.
pub proof fn lemma_parse_to_uri_roundtrip(x: PathRefModel)
    requires
        x.location matches PartitionRefModel::Iso(p) ==> !p.contains(':'),
    ensures
        spec_parse(spec_to_uri(x)) == Ok::<PathRefModel, ParseErrModel>(x),
{
    lemma_prefix_parses(x.location);
    let pre = spec_uri_prefix(x.location);
    let u = spec_to_uri(x);
    let k = pre.len() - 1;
    assert(u[k] == ':');
    assert forall|j: int| 0 <= j < k implies u[j] != ':' by {
        assert(u[j] == pre[j]);
    }
    lemma_first_index(u, ':', k);
    assert(u.take(k) =~= pre.drop_last());
    assert(u.skip(k + 1) =~= x.path);
    let parsed = spec_parse(u);
    assert(parsed == Ok::<PathRefModel, ParseErrModel>(
        PathRefModel { location: x.location, path: u.skip(k + 1) },
    ));
    assert(parsed->Ok_0 =~= x);
}

} // verus!