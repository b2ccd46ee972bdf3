//! The subscription form: decoding an `application/x-www-form-urlencoded` body
//! into `(key, value)` pairs and extracting a validated submission from them.
use vstd::prelude::*;

verus! {

/// The code points that carry Unicode's `White_Space` property.
pub open spec fn is_white_space(c: char) -> bool {
    let n = c as u32;
    (0x9 <= n && n <= 0xd) || n == 0x20 || n == 0x85 || n == 0xa0 || n == 0x1680 || (0x2000 <= n
        && n <= 0x200a) || n == 0x2028 || n == 0x2029 || n == 0x202f || n == 0x205f || n == 0x3000
}

/// A text is blank when it is empty after trimming white space.
pub open spec fn is_blank(s: Seq<char>) -> bool {
    forall|i: int| 0 <= i < s.len() ==> is_white_space(#[trigger] s[i])
}

/// Whether `c` is a white-space code point, as `char::is_whitespace` decides.
pub fn is_space(c: char) -> (r: bool)
    ensures
        r == is_white_space(c),
{
    let n = c as u32;
    (0x9 <= n && n <= 0xd) || n == 0x20 || n == 0x85 || n == 0xa0 || n == 0x1680 || (0x2000 <= n
        && n <= 0x200a) || n == 0x2028 || n == 0x2029 || n == 0x202f || n == 0x205f || n == 0x3000
}

/// Whether `s` holds nothing but white space.
pub fn blank(s: &str) -> (r: bool)
    ensures
        r == is_blank(s@),
{
    let n = s.unicode_len();
    let mut i: usize = 0;
    while i < n
        invariant
            n == s@.len(),
            i <= n,
            forall|j: int| 0 <= j < i ==> is_white_space(#[trigger] s@[j]),
        decreases n - i,
    {
        if !is_space(s.get_char(i)) {
            return false;
        }
        i = i + 1;
    }
    true
}

/// Whether two texts hold the same characters.
pub fn same_text(a: &str, b: &str) -> (r: bool)
    ensures
        r == (a@ == b@),
{
    let n = a.unicode_len();
    if n != b.unicode_len() {
        return false;
    }
    let mut i: usize = 0;
    while i < n
        invariant
            n == a@.len(),
            n == b@.len(),
            i <= n,
            forall|j: int| 0 <= j < i ==> a@[j] == b@[j],
        decreases n - i,
    {
        if a.get_char(i) != b.get_char(i) {
            return false;
        }
        i = i + 1;
    }
    assert(a@ =~= b@);
    true
}

/// The two fields of a submission.
#[derive(Clone, Copy, Debug, PartialEq, Eq)]
pub enum Field {
    Name,
    Email,
}

impl Field {
    /// The form key under which the field is sent.
    pub open spec fn key(self) -> Seq<char> {
        match self {
            Field::Name => "name"@,
            Field::Email => "email"@,
        }
    }

    pub fn key_str(&self) -> (r: &'static str)
        ensures
            r@ == self.key(),
    {
        match self {
            Field::Name => "name",
            Field::Email => "email",
        }
    }
}

/// Why a body does not make a submission.
#[derive(Clone, Copy, Debug, PartialEq, Eq)]
pub enum FormError {
    /// No pair carries the field's key.
    Missing(Field),
    /// More than one pair carries the field's key.
    Repeated(Field),
    /// The field's value is empty once trimmed.
    Blank(Field),
}

/// Decoded pairs, as texts.
pub type Pairs = Seq<(Seq<char>, Seq<char>)>;

pub open spec fn pairs_view(v: Seq<(String, String)>) -> Pairs {
    v.map_values(|p: (String, String)| (p.0@, p.1@))
}

/// The decoded `(key, value)` pairs of a urlencoded body, in the body's order.
pub uninterp spec fn form_pairs(body: Seq<u8>) -> Pairs;

/// The values sent under `key`, in order.
pub open spec fn values_of(pairs: Pairs, key: Seq<char>) -> Seq<Seq<char>>
    decreases pairs.len(),
{
    if pairs.len() == 0 {
        Seq::empty()
    } else {
        let rest = values_of(pairs.drop_last(), key);
        if pairs.last().0 == key {
            rest.push(pairs.last().1)
        } else {
            rest
        }
    }
}

/// The value of one field: present exactly once and not blank.
pub open spec fn field_of(pairs: Pairs, f: Field) -> Result<Seq<char>, FormError> {
    let vals = values_of(pairs, f.key());
    if vals.len() == 0 {
        Err(FormError::Missing(f))
    } else if vals.len() > 1 {
        Err(FormError::Repeated(f))
    } else if is_blank(vals[0]) {
        Err(FormError::Blank(f))
    } else {
        Ok(vals[0])
    }
}

/// The submission that decoded pairs make: `(name, email)`, or the first fault,
/// the name's before the email's. Keys other than the two fields are ignored.
pub open spec fn submission_of(pairs: Pairs) -> Result<(Seq<char>, Seq<char>), FormError> {
    match field_of(pairs, Field::Name) {
        Err(e) => Err(e),
        Ok(name) => match field_of(pairs, Field::Email) {
            Err(e) => Err(e),
            Ok(email) => Ok((name, email)),
        },
    }
}

/// A validated subscription submission.
pub struct FormData {
    name: String,
    email: String,
}

impl View for FormData {
    type V = (Seq<char>, Seq<char>);

    closed spec fn view(&self) -> (Seq<char>, Seq<char>) {
        (self.name@, self.email@)
    }
}

pub open spec fn outcome_view(r: Result<FormData, FormError>) -> Result<
    (Seq<char>, Seq<char>),
    FormError,
> {
    match r {
        Ok(f) => Ok(f@),
        Err(e) => Err(e),
    }
}

#[verifier::external_type_specification]
#[verifier::external_body]
pub struct ExDecodeError(serde::de::value::Error);

/// Relies on `serde_urlencoded::from_bytes` read into a list of string pairs:
/// every body decodes (each part becomes a `String`, invalid UTF-8 replaced), the
/// pairs come in the body's order, and an empty body holds none.
#[verifier::external_body]
fn decode_pairs(body: &[u8]) -> (r: Result<Vec<(String, String)>, serde::de::value::Error>)
    ensures
        r is Ok,
        pairs_view(r->Ok_0@) == form_pairs(body@),
        body@.len() == 0 ==> r is Ok && r->Ok_0@.len() == 0,
{
    serde_urlencoded::from_bytes::<Vec<(String, String)>>(body)
}

/// The one value of field `f` among `pairs`, checked as `field_of` says.
pub fn field_value(pairs: &Vec<(String, String)>, f: Field) -> (r: Result<String, FormError>)
    ensures
        match r {
            Ok(s) => field_of(pairs_view(pairs@), f) == Ok::<Seq<char>, FormError>(s@),
            Err(e) => field_of(pairs_view(pairs@), f) == Err::<Seq<char>, FormError>(e),
        },
{
    let key = f.key_str();
    let ghost all = pairs_view(pairs@);
    let mut found: Option<String> = None;
    let mut repeated = false;
    let mut i: usize = 0;
    while i < pairs.len()
        invariant
            i <= pairs@.len(),
            all == pairs_view(pairs@),
            key@ == f.key(),
            ({
                let vals = values_of(all.take(i as int), f.key());
                &&& (found is None <==> vals.len() == 0)
                &&& (found is Some ==> found->Some_0@ == vals[0])
                &&& (repeated <==> vals.len() > 1)
            }),
        decreases pairs@.len() - i,
    {
        assert(all.take(i + 1).drop_last() =~= all.take(i as int));
        if same_text(pairs[i].0.as_str(), key) {
            if found.is_some() {
                repeated = true;
            } else {
                found = Some(pairs[i].1.clone());
            }
        }
        i = i + 1;
    }
    assert(all.take(pairs@.len() as int) =~= all);
    match found {
        None => Err(FormError::Missing(f)),
        Some(v) => {
            if repeated {
                Err(FormError::Repeated(f))
            } else if blank(v.as_str()) {
                Err(FormError::Blank(f))
            } else {
                Ok(v)
            }
        },
    }
}

impl FormData {
    pub fn name(&self) -> (r: &str)
        ensures
            r@ == self@.0,
    {
        self.name.as_str()
    }

    pub fn email(&self) -> (r: &str)
        ensures
            r@ == self@.1,
    {
        self.email.as_str()
    }

    /// The submission that already decoded pairs make.
    pub fn from_pairs(pairs: &Vec<(String, String)>) -> (r: Result<FormData, FormError>)
        ensures
            outcome_view(r) == submission_of(pairs_view(pairs@)),
    {
        let name = match field_value(pairs, Field::Name) {
            Ok(s) => s,
            Err(e) => return Err(e),
        };
        let email = match field_value(pairs, Field::Email) {
            Ok(s) => s,
            Err(e) => return Err(e),
        };
        Ok(FormData { name, email })
    }

    /// Decodes a urlencoded body and extracts the submission from it.
    pub fn parse(body: &[u8]) -> (r: Result<FormData, FormError>)
        ensures
            outcome_view(r) == submission_of(form_pairs(body@)),
            body@.len() == 0 ==> r == Err::<FormData, FormError>(FormError::Missing(Field::Name)),
    {
        match decode_pairs(body) {
            Ok(pairs) => FormData::from_pairs(&pairs),
            // Not taken: decoding into string pairs does not fail.
            Err(_) => Err(FormError::Missing(Field::Name)),
        }
    }
}

} // verus!
