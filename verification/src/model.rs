//! The dictionary entry type, its identifier, and the fallible decode of one
//! JSON list element into a typed record.

use vstd::prelude::*;
use vstd::string::StringExecFns;
use crate::date::{Date, date_from_triple, date_of_text, parse_written_on};
use crate::json::{Jv, json_model, jv_as_array, jv_as_str, jv_as_u64, jv_get, obj_arr, obj_str,
    obj_u64};

verus! {

/// A wrapper for the id of a definition entry.
///
/// Equality and hashing go by the wrapped integer alone; the value is
/// immutable once constructed.
#[derive(Copy, Clone, PartialEq, Eq, Structural, Hash, Debug)]
pub struct Defid(u64);

impl View for Defid {
    type V = u64;

    closed spec fn view(&self) -> u64 {
        self.0
    }
}

impl Defid {
    /// Defid constructor from u64.
    pub fn new(id: u64) -> (r: Defid)
        ensures
            r@ == id,
    {
        Defid(id)
    }

    /// Getter method to unwrap the u64 from a Defid.
    pub fn as_u64(self) -> (r: u64)
        ensures
            r == self@,
    {
        self.0
    }
}

/// Two identifiers are equal exactly when the wrapped integers are equal.
pub proof fn lemma_defid_eq(a: Defid, b: Defid)
    ensures
        a == b <==> a@ == b@,
{
}

/// The mathematical view of a `Definition`.
pub struct DefView {
    pub word: Seq<char>,
    pub definition: Seq<char>,
    pub example: Seq<char>,
    pub author: Seq<char>,
    pub written_on: Date,
    pub defid: u64,
    pub thumbs_up: u32,
    pub thumbs_down: u32,
    pub permalink: Seq<char>,
    pub sound_urls: Seq<Seq<char>>,
}

/// The string elements of a JSON array model, in their original order; every
/// element that is not a string is skipped.
pub open spec fn kept_strings(a: Seq<Jv>) -> Seq<Seq<char>>
    decreases a.len(),
{
    if a.len() == 0 {
        Seq::empty()
    } else {
        kept_strings(a.drop_last()) + (if a.last() is Str {
            seq![a.last()->s]
        } else {
            Seq::empty()
        })
    }
}

/// Whether a JSON object model carries every field an entry requires, each
/// with the right type, and a timestamp that parses.
pub open spec fn entry_shape_ok(m: Map<Seq<char>, Jv>) -> bool {
    &&& obj_str(m, "word"@) is Some
    &&& obj_str(m, "definition"@) is Some
    &&& obj_str(m, "example"@) is Some
    &&& obj_str(m, "author"@) is Some
    &&& obj_str(m, "written_on"@) is Some
    &&& date_of_text(obj_str(m, "written_on"@)->Some_0) is Some
    &&& obj_u64(m, "defid"@) is Some
    &&& obj_u64(m, "thumbs_up"@) is Some
    &&& obj_u64(m, "thumbs_down"@) is Some
    &&& obj_str(m, "permalink"@) is Some
    &&& obj_arr(m, "sound_urls"@) is Some
}

/// What decoding one JSON list element yields: the typed view of the entry,
/// or nothing at all if a required field is missing or mistyped or the
/// timestamp does not match the fixed format.
pub open spec fn spec_decode(j: Jv) -> Option<DefView> {
    if j is Obj && entry_shape_ok(j->fields) {
        let m = j->fields;
        Some(
            DefView {
                word: obj_str(m, "word"@)->Some_0,
                definition: obj_str(m, "definition"@)->Some_0,
                example: obj_str(m, "example"@)->Some_0,
                author: obj_str(m, "author"@)->Some_0,
                written_on: date_from_triple(date_of_text(obj_str(m, "written_on"@)->Some_0)->Some_0),
                defid: obj_u64(m, "defid"@)->Some_0,
                thumbs_up: obj_u64(m, "thumbs_up"@)->Some_0 as u32,
                thumbs_down: obj_u64(m, "thumbs_down"@)->Some_0 as u32,
                permalink: obj_str(m, "permalink"@)->Some_0,
                sound_urls: kept_strings(obj_arr(m, "sound_urls"@)->Some_0),
            },
        )
    } else {
        None
    }
}

/// The struct to represent a dictionary definition entry.
///
/// A `Definition` is only ever produced by successfully decoding one element
/// of the service's response list, and is never mutated afterwards.
#[derive(Clone, Debug)]
pub struct Definition {
    word: String,
    definition: String,
    example: String,
    author: String,
    written_on: Date,
    defid: Defid,
    thumbs_up: u32,
    thumbs_down: u32,
    permalink: String,
    sound_urls: Vec<String>,
}

impl View for Definition {
    type V = DefView;

    closed spec fn view(&self) -> DefView {
        DefView {
            word: self.word@,
            definition: self.definition@,
            example: self.example@,
            author: self.author@,
            written_on: self.written_on,
            defid: self.defid@,
            thumbs_up: self.thumbs_up,
            thumbs_down: self.thumbs_down,
            permalink: self.permalink@,
            sound_urls: self.sound_urls@.map_values(|s: String| s@),
        }
    }
}

/// Reads the named field of a JSON value as owned text, if the value is an
/// object carrying that field as a JSON string.
fn get_str_field(v: &serde_json::Value, key: &str) -> (r: Option<String>)
    ensures
        match json_model(*v) {
            Jv::Obj { fields } => match obj_str(fields, key@) {
                Some(s) => r is Some && r->Some_0@ == s,
                None => r is None,
            },
            _ => r is None,
        },
{
    match jv_get(v, key) {
        Some(f) => match jv_as_str(f) {
            Some(s) => Some(s.to_owned()),
            None => None,
        },
        None => None,
    }
}

/// Reads the named field of a JSON value as an unsigned 64-bit integer, if
/// the value is an object carrying that field as such a number.
fn get_u64_field(v: &serde_json::Value, key: &str) -> (r: Option<u64>)
    ensures
        match json_model(*v) {
            Jv::Obj { fields } => match obj_u64(fields, key@) {
                Some(n) => r == Some(n),
                None => r is None,
            },
            _ => r is None,
        },
{
    match jv_get(v, key) {
        Some(f) => jv_as_u64(f),
        None => None,
    }
}

/// Reads the `sound_urls` field of a JSON value, keeping exactly its string
/// elements in order, if the value is an object carrying that field as an
/// array.
fn get_sound_urls(v: &serde_json::Value) -> (r: Option<Vec<String>>)
    ensures
        match json_model(*v) {
            Jv::Obj { fields } => match obj_arr(fields, "sound_urls"@) {
                Some(a) => r is Some && r->Some_0@.map_values(|s: String| s@) == kept_strings(a),
                None => r is None,
            },
            _ => r is None,
        },
{
    let arr = match jv_get(v, "sound_urls") {
        Some(f) => match jv_as_array(f) {
            Some(a) => a,
            None => {
                return None;
            },
        },
        None => {
            return None;
        },
    };
    let ghost elems = obj_arr(json_model(*v)->fields, "sound_urls"@)->Some_0;
    let mut urls: Vec<String> = Vec::new();
    let mut i: usize = 0;
    while i < arr.len()
        invariant
            i <= arr.len(),
            arr@.len() == elems.len(),
            forall|k: int| 0 <= k < elems.len() ==> #[trigger] json_model(arr@[k]) == elems[k],
            urls@.map_values(|s: String| s@) == kept_strings(elems.take(i as int)),
        decreases arr.len() - i,
    {
        let ghost prev = urls@;
        match jv_as_str(&arr[i]) {
            Some(s) => {
                urls.push(s.to_owned());
            },
            None => {
            },
        }
        proof {
            let t = elems.take(i + 1 as int);
            assert(t.drop_last() =~= elems.take(i as int));
            assert(t.last() == elems[i as int]);
            if elems[i as int] is Str {
                assert(urls@.map_values(|s: String| s@) =~= kept_strings(elems.take(i as int))
                    + seq![elems[i as int]->s]);
            } else {
                assert(urls@ == prev);
            }
            assert(urls@.map_values(|s: String| s@) =~= kept_strings(t));
        }
        i = i + 1;
    }
    proof {
        assert(elems.take(elems.len() as int) =~= elems);
    }
    Some(urls)
}

impl Definition {
    /// Decode one JSON list element into a `Definition`.
    ///
    /// The result is exactly what `spec_decode` says of the value's model:
    /// a fully populated entry on success, and no value at all otherwise.
    pub fn new(v: &serde_json::Value) -> (r: Option<Definition>)
        ensures
            match spec_decode(json_model(*v)) {
                Some(dv) => r is Some && r->Some_0@ == dv,
                None => r is None,
            },
    {
        let word = match get_str_field(v, "word") {
            Some(s) => s,
            None => {
                return None;
            },
        };
        let definition = match get_str_field(v, "definition") {
            Some(s) => s,
            None => {
                return None;
            },
        };
        let example = match get_str_field(v, "example") {
            Some(s) => s,
            None => {
                return None;
            },
        };
        let author = match get_str_field(v, "author") {
            Some(s) => s,
            None => {
                return None;
            },
        };
        let written_on_text = match get_str_field(v, "written_on") {
            Some(s) => s,
            None => {
                return None;
            },
        };
        let written_on = match parse_written_on(written_on_text.as_str()) {
            Some(d) => d,
            None => {
                return None;
            },
        };
        let defid = match get_u64_field(v, "defid") {
            Some(n) => Defid::new(n),
            None => {
                return None;
            },
        };
        let thumbs_up_raw = match get_u64_field(v, "thumbs_up") {
            Some(n) => n,
            None => {
                return None;
            },
        };
        let thumbs_down_raw = match get_u64_field(v, "thumbs_down") {
            Some(n) => n,
            None => {
                return None;
            },
        };
        let permalink = match get_str_field(v, "permalink") {
            Some(s) => s,
            None => {
                return None;
            },
        };
        let sound_urls = match get_sound_urls(v) {
            Some(u) => u,
            None => {
                return None;
            },
        };
        let thumbs_up: u32 = #[verifier::truncate] (thumbs_up_raw as u32);
        let thumbs_down: u32 = #[verifier::truncate] (thumbs_down_raw as u32);
        Some(
            Definition {
                word,
                definition,
                example,
                author,
                written_on,
                defid,
                thumbs_up,
                thumbs_down,
                permalink,
                sound_urls,
            },
        )
    }

    /// The word the entry is defining.
    pub fn word(&self) -> (r: &str)
        ensures
            r@ == self@.word,
    {
        self.word.as_str()
    }

    /// The body of the definition.
    pub fn definition(&self) -> (r: &str)
        ensures
            r@ == self@.definition,
    {
        self.definition.as_str()
    }

    /// An example of the use of the word.
    pub fn example(&self) -> (r: &str)
        ensures
            r@ == self@.example,
    {
        self.example.as_str()
    }

    /// The author of the definition entry.
    pub fn author(&self) -> (r: &str)
        ensures
            r@ == self@.author,
    {
        self.author.as_str()
    }

    /// The date the entry was written on.
    pub fn written_on(&self) -> (r: Date)
        ensures
            r == self@.written_on,
    {
        self.written_on
    }

    /// The id of the definition.
    pub fn defid(&self) -> (r: Defid)
        ensures
            r@ == self@.defid,
    {
        self.defid
    }

    /// The number of thumbs up the entry has.
    pub fn thumbs_up(&self) -> (r: u32)
        ensures
            r == self@.thumbs_up,
    {
        self.thumbs_up
    }

    /// The number of thumbs down the entry has.
    pub fn thumbs_down(&self) -> (r: u32)
        ensures
            r == self@.thumbs_down,
    {
        self.thumbs_down
    }

    /// A permalink to the entry.
    pub fn permalink(&self) -> (r: &str)
        ensures
            r@ == self@.permalink,
    {
        self.permalink.as_str()
    }

    /// A list of urls to sounds of the entry.
    pub fn sound_urls(&self) -> (r: &Vec<String>)
        ensures
            r@.map_values(|s: String| s@) == self@.sound_urls,
    {
        &self.sound_urls
    }

    /// The human-readable rendering of the entry: "word: definition".
    pub fn display_string(&self) -> (r: String)
        ensures
            r@ == self@.word + ": "@ + self@.definition,
    {
        let mut s = self.word.clone();
        s.append(": ");
        s.append(self.definition.as_str());
        s
    }
}

/// Whether a field name is one that an entry requires.
pub open spec fn is_required_key(k: Seq<char>) -> bool {
    ||| k == "word"@
    ||| k == "definition"@
    ||| k == "example"@
    ||| k == "author"@
    ||| k == "written_on"@
    ||| k == "defid"@
    ||| k == "thumbs_up"@
    ||| k == "thumbs_down"@
    ||| k == "permalink"@
    ||| k == "sound_urls"@
}

/// Law: decoding a well-shaped entry succeeds and carries every semantic
/// field value over verbatim; the timestamp is kept at day granularity and
/// the vote counts are truncated to 32 bits.
pub proof fn lemma_decode_preserves_fields(j: Jv)
    requires
        j is Obj,
        entry_shape_ok(j->fields),
    ensures
        spec_decode(j) is Some,
        ({
            let m = j->fields;
            let d = spec_decode(j)->Some_0;
            &&& d.word == obj_str(m, "word"@)->Some_0
            &&& d.definition == obj_str(m, "definition"@)->Some_0
            &&& d.example == obj_str(m, "example"@)->Some_0
            &&& d.author == obj_str(m, "author"@)->Some_0
            &&& d.written_on == date_from_triple(
                date_of_text(obj_str(m, "written_on"@)->Some_0)->Some_0,
            )
            &&& d.defid == obj_u64(m, "defid"@)->Some_0
            &&& d.thumbs_up == obj_u64(m, "thumbs_up"@)->Some_0 as u32
            &&& d.thumbs_down == obj_u64(m, "thumbs_down"@)->Some_0 as u32
            &&& d.permalink == obj_str(m, "permalink"@)->Some_0
            &&& d.sound_urls == kept_strings(obj_arr(m, "sound_urls"@)->Some_0)
        }),
{
}

/// Law: an entry missing any one required field does not decode.
pub proof fn lemma_missing_field_fails(j: Jv, k: Seq<char>)
    requires
        is_required_key(k),
        j is Obj,
        !j->fields.dom().contains(k),
    ensures
        spec_decode(j) is None,
{
}

/// Law: an entry whose `written_on` text does not parse in the fixed
/// timestamp format does not decode.
pub proof fn lemma_bad_timestamp_fails(j: Jv)
    requires
        j is Obj,
        j->fields.dom().contains("written_on"@),
        j->fields["written_on"@] is Str,
        date_of_text(j->fields["written_on"@]->s) is None,
    ensures
        spec_decode(j) is None,
{
}

/// Law: the retained sound urls are exactly the string elements of the
/// array, in their original order; every other element is skipped and none
/// of them makes the decode fail.
pub proof fn lemma_kept_strings_exact(a: Seq<Jv>)
    ensures
        kept_strings(a) == a.filter(|x: Jv| x is Str).map_values(|x: Jv| x->s),
    decreases a.len(),
{
    reveal(Seq::filter);
    let p = |x: Jv| x is Str;
    let f = |x: Jv| x->s;
    if a.len() == 0 {
        assert(kept_strings(a) =~= a.filter(p).map_values(f));
    } else {
        lemma_kept_strings_exact(a.drop_last());
        let sub = a.drop_last().filter(p);
        if p(a.last()) {
            assert(a.filter(p) == sub.push(a.last()));
            assert(sub.push(a.last()).map_values(f) =~= sub.map_values(f).push(f(a.last())));
            assert(kept_strings(a) =~= sub.map_values(f).push(f(a.last())));
        } else {
            assert(a.filter(p) == sub);
            assert(kept_strings(a) =~= sub.map_values(f));
        }
    }
}

/// Law: two entries compare as equal exactly when their identifiers are
/// equal, whatever the other fields hold.
pub proof fn lemma_entry_equality_by_identifier(a: &Definition, b: &Definition)
    ensures
        vstd::std_specs::cmp::PartialEqSpec::eq_spec(a, b) <==> a@.defid == b@.defid,
{
}

impl vstd::std_specs::cmp::PartialEqSpecImpl for Definition {
    open spec fn obeys_eq_spec() -> bool {
        true
    }

    open spec fn eq_spec(&self, o: &Definition) -> bool {
        self@.defid == o@.defid
    }
}

impl PartialEq for Definition {
    fn eq(&self, o: &Definition) -> bool {
        self.defid == o.defid
    }
}

impl Eq for Definition {}

} // verus!
