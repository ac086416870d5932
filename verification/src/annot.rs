//! The annotation decoder. A page's raw annotation payload is a JSON document
//! whose `TextPageData` member is itself a serialized JSON string; that nested
//! text must be parsed a second time to reach the glyph-run list under
//! `texts`. The two decodes fail distinctly — outer versus inner — so a
//! diagnostic can say which payload was malformed. Any decode error is fatal
//! for the run; there is no recovery.
//!
//! The JSON crate is reached through narrow trusted declarations whose
//! contracts speak over an observation model of the parsed document
//! (`JsonNode`, `value_model`, `json_doc_of`). On top of them the whole
//! decode is pinned down: `decode_annotation_page` returns exactly
//! `annot_decode_of` of the raw text, a function of the text alone.
//!
//! Payloads whose bracket nesting exceeds `MAX_JSON_DEPTH` are rejected
//! before the parser sees them: the parser's document build recurses per
//! nesting level, so the bound keeps the call's stack use bounded.

use vstd::prelude::*;
use vstd::string::StringSliceAdditionalSpecFns;
use sonic_rs::JsonContainerTrait;
use sonic_rs::JsonValueTrait;
use sonic_rs::Value;
use crate::errors::AnnotError;
use crate::glyphs::{PlacementMatrix, GlyphRecord, GlyphRun, GlyphRunView, AnnotationPage};

verus! {

/// The deepest bracket nesting the decoder hands to the parser. The parser
/// builds nested documents by recursion with sizeable stack frames and no
/// limit of its own, so a modest payload of nested brackets could exhaust
/// the stack; payloads past this bound are rejected instead of parsed. The
/// annotation format itself nests six levels deep.
pub const MAX_JSON_DEPTH: u32 = 16;

/// What this decoder can observe of one parsed JSON value through the
/// accessors below. `Other` stands for the kinds none of them accepts
/// (null and booleans). A number carries the double-precision bit pattern
/// the crate reads it as, and, when it is a non-negative integer, that
/// integer as well.
pub enum JsonNode {
    Num(u64, Option<u64>),
    Text(Seq<char>),
    Arr(Seq<JsonNode>),
    Obj(Map<Seq<char>, JsonNode>),
    Other,
}

/// The observation model of a parsed document value. What each accessor
/// wrapper returns is stated over this one name, so the verified walk below
/// is tied to the document the parser produced.
pub uninterp spec fn value_model(v: Value) -> JsonNode;

/// The parse outcome for a text: the model of the document it parses to,
/// or nothing when it is not one well-formed JSON document. A function of
/// the text alone.
pub uninterp spec fn json_doc_of(s: Seq<char>) -> Option<JsonNode>;

// --- the nesting-depth pre-scan, fully verified ------------------------

/// State of the depth scan: current and deepest bracket depth, and whether
/// the scan stands inside a string (after a backslash escape).
pub struct ScanState {
    pub depth: int,
    pub deepest: int,
    pub in_string: bool,
    pub escaped: bool,
}

/// One byte of the depth scan. Brackets count only outside strings; inside
/// a string, a backslash escapes the next byte and an unescaped quote ends
/// it. The bytes looked at are all ASCII, so the scan reads UTF-8 encoded
/// text correctly.
pub open spec fn scan_step(st: ScanState, b: u8) -> ScanState {
    if st.in_string {
        if st.escaped {
            ScanState { escaped: false, ..st }
        } else if b == 92 {
            ScanState { escaped: true, ..st }
        } else if b == 34 {
            ScanState { in_string: false, ..st }
        } else {
            st
        }
    } else {
        if b == 34 {
            ScanState { in_string: true, ..st }
        } else if b == 123 || b == 91 {
            ScanState {
                depth: st.depth + 1,
                deepest: if st.depth + 1 > st.deepest {
                    st.depth + 1
                } else {
                    st.deepest
                },
                ..st
            }
        } else if b == 125 || b == 93 {
            ScanState { depth: st.depth - 1, ..st }
        } else {
            st
        }
    }
}

/// The depth scan over a whole byte sequence.
pub open spec fn scan_bytes(s: Seq<u8>) -> ScanState
    decreases s.len(),
{
    if s.len() == 0 {
        ScanState { depth: 0, deepest: 0, in_string: false, escaped: false }
    } else {
        scan_step(scan_bytes(s.drop_last()), s.last())
    }
}

/// The deepest bracket nesting of a text's UTF-8 bytes.
pub open spec fn json_depth(s: Seq<u8>) -> int {
    scan_bytes(s).deepest
}

/// Runs the depth scan over a text and compares against `MAX_JSON_DEPTH`.
pub fn within_depth_limit(s: &str) -> (ok: bool)
    ensures
        ok == (json_depth(s.spec_bytes()) <= MAX_JSON_DEPTH as int),
{
    let bytes: &[u8] = s.as_bytes();
    let mut depth: i128 = 0;
    let mut deepest: i128 = 0;
    let mut in_string: bool = false;
    let mut escaped: bool = false;
    let mut i: usize = 0;
    proof {
        assert(bytes@.take(0) =~= Seq::<u8>::empty());
    }
    while i < bytes.len()
        invariant
            0 <= i <= bytes@.len(),
            bytes@ == s.spec_bytes(),
            -(i as int) <= depth as int <= i as int,
            0 <= deepest as int <= i as int,
            (scan_bytes(bytes@.take(i as int)) == ScanState {
                depth: depth as int,
                deepest: deepest as int,
                in_string: in_string,
                escaped: escaped,
            }),
        decreases bytes@.len() - i,
    {
        let b = bytes[i];
        proof {
            assert(bytes@.take(i + 1).drop_last() =~= bytes@.take(i as int));
            assert(bytes@.take(i + 1).last() == bytes@[i as int]);
        }
        if in_string {
            if escaped {
                escaped = false;
            } else if b == 92 {
                escaped = true;
            } else if b == 34 {
                in_string = false;
            }
        } else {
            if b == 34 {
                in_string = true;
            } else if b == 123 || b == 91 {
                depth = depth + 1;
                if depth > deepest {
                    deepest = depth;
                }
            } else if b == 125 || b == 93 {
                depth = depth - 1;
            }
        }
        i = i + 1;
    }
    proof {
        assert(bytes@.take(bytes@.len() as int) =~= bytes@);
    }
    deepest <= MAX_JSON_DEPTH as i128
}

// --- trusted declarations over the JSON crate --------------------------

/// Declares the JSON crate's document type so values of it can pass through
/// signatures; nothing here looks inside one except through the wrappers.
#[verifier::external_type_specification]
#[verifier::external_body]
pub struct ExValue(Value);

/// Relies on sonic_rs::from_str::<Value>: parsing succeeds exactly when the
/// text is one well-formed JSON document, the document depends on the text
/// alone, and the result is the value the accessors below observe. The
/// depth bound is required because the document build recurses once per
/// nesting level with no limit of its own.
#[verifier::external_body]
fn parse_document(s: &str) -> (r: Option<Value>)
    requires
        json_depth(s.spec_bytes()) <= MAX_JSON_DEPTH as int,
    ensures
        (r is Some <==> json_doc_of(s@) is Some),
        (r matches Some(v) ==> value_model(v) == json_doc_of(s@)->Some_0),
{
    sonic_rs::from_str::<Value>(s).ok()
}

/// Relies on sonic_rs's JsonValueTrait::get with a string key: on an object
/// it yields the member under the key exactly when the object has one, and
/// on anything else nothing.
#[verifier::external_body]
fn get_member<'a>(v: &'a Value, key: &str) -> (r: Option<&'a Value>)
    ensures
        (value_model(*v) matches JsonNode::Obj(m) ==> ((r is Some <==> m.dom().contains(key@))
            && (r matches Some(e) ==> value_model(*e) == m[key@]))),
        (!(value_model(*v) is Obj) ==> r is None),
{
    v.get(key)
}

/// Relies on sonic_rs's JsonValueTrait::get with a position: on an array it
/// yields the element at that position exactly when it is in bounds, and on
/// anything else nothing.
#[verifier::external_body]
fn get_element(v: &Value, i: usize) -> (r: Option<&Value>)
    ensures
        (value_model(*v) matches JsonNode::Arr(items) ==> ((r is Some <==> i < items.len()) && (
        r matches Some(e) ==> value_model(*e) == items[i as int]))),
        (!(value_model(*v) is Arr) ==> r is None),
{
    v.get(i)
}

/// Relies on sonic_rs's JsonValueTrait::as_str: the owned text of a JSON
/// string value, and nothing for any other kind.
#[verifier::external_body]
fn value_as_string(v: &Value) -> (r: Option<String>)
    ensures
        (r is Some <==> value_model(*v) is Text),
        (r matches Some(t) ==> t@ == value_model(*v)->Text_0),
{
    v.as_str().map(|s| s.to_string())
}

/// Relies on sonic_rs's JsonValueTrait::as_array: the length of a JSON
/// array value, and nothing for any other kind.
#[verifier::external_body]
fn array_length(v: &Value) -> (r: Option<usize>)
    ensures
        (r is Some <==> value_model(*v) is Arr),
        (r matches Some(n) ==> n == value_model(*v)->Arr_0.len()),
{
    v.as_array().map(|a| a.len())
}

/// Relies on sonic_rs's JsonValueTrait::as_f64: any JSON number read in
/// double precision, carried on as its IEEE-754 bit pattern; nothing for
/// any other kind.
#[verifier::external_body]
fn value_as_bits(v: &Value) -> (r: Option<u64>)
    ensures
        (r is Some <==> value_model(*v) is Num),
        (r matches Some(b) ==> b == value_model(*v)->Num_0),
{
    v.as_f64().map(|x| x.to_bits())
}

/// Relies on sonic_rs's JsonValueTrait::as_u64: a JSON number that is a
/// non-negative integer, and nothing otherwise.
#[verifier::external_body]
fn value_as_u64(v: &Value) -> (r: Option<u64>)
    ensures
        (value_model(*v) matches JsonNode::Num(b, u) ==> r == u),
        (!(value_model(*v) is Num) ==> r is None),
{
    v.as_u64()
}

// --- the decode, specified over the model ------------------------------

/// The bit pattern of a number node.
pub open spec fn num_bits_of(n: JsonNode) -> Option<u64> {
    match n {
        JsonNode::Num(b, _) => Some(b),
        _ => None,
    }
}

/// A baseline transform out of a six-element number array.
pub open spec fn decode_matrix_spec(n: JsonNode) -> Option<PlacementMatrix> {
    match n {
        JsonNode::Arr(items) => if items.len() == 6 && num_bits_of(items[0]) is Some
            && num_bits_of(items[1]) is Some && num_bits_of(items[2]) is Some && num_bits_of(
            items[3],
        ) is Some && num_bits_of(items[4]) is Some && num_bits_of(items[5]) is Some {
            Some(
                PlacementMatrix {
                    sx: num_bits_of(items[0])->Some_0,
                    shy: num_bits_of(items[1])->Some_0,
                    shx: num_bits_of(items[2])->Some_0,
                    sy: num_bits_of(items[3])->Some_0,
                    tx: num_bits_of(items[4])->Some_0,
                    ty: num_bits_of(items[5])->Some_0,
                },
            )
        } else {
            None
        },
        _ => None,
    }
}

/// A glyph record out of a five-element array: four numbers and a code
/// point that must be a non-negative integer fitting 32 bits.
pub open spec fn decode_glyph_spec(n: JsonNode) -> Option<GlyphRecord> {
    match n {
        JsonNode::Arr(items) => if items.len() == 5 && num_bits_of(items[0]) is Some
            && num_bits_of(items[1]) is Some && num_bits_of(items[2]) is Some && num_bits_of(
            items[3],
        ) is Some {
            match items[4] {
                JsonNode::Num(_, Some(c)) => if c <= 0xFFFF_FFFF {
                    Some(
                        GlyphRecord {
                            x: num_bits_of(items[0])->Some_0,
                            y: num_bits_of(items[1])->Some_0,
                            ext_a: num_bits_of(items[2])->Some_0,
                            ext_b: num_bits_of(items[3])->Some_0,
                            code: c as u32,
                        },
                    )
                } else {
                    None
                },
                _ => None,
            }
        } else {
            None
        },
        _ => None,
    }
}

/// All glyph records of a run's record array, in order; nothing if any
/// record is malformed.
pub open spec fn decode_glyphs_spec(items: Seq<JsonNode>) -> Option<Seq<GlyphRecord>>
    decreases items.len(),
{
    if items.len() == 0 {
        Some(Seq::empty())
    } else {
        match decode_glyphs_spec(items.drop_last()) {
            Some(gs) => match decode_glyph_spec(items.last()) {
                Some(g) => Some(gs.push(g)),
                None => None,
            },
            None => None,
        }
    }
}

/// One glyph run out of an object holding its `mt` transform and `cs`
/// record array.
pub open spec fn decode_run_spec(n: JsonNode) -> Option<GlyphRunView> {
    match n {
        JsonNode::Obj(m) => if m.dom().contains("mt"@) && m.dom().contains("cs"@) {
            match decode_matrix_spec(m["mt"@]) {
                Some(mat) => match m["cs"@] {
                    JsonNode::Arr(gitems) => match decode_glyphs_spec(gitems) {
                        Some(gs) => Some(GlyphRunView { matrix: mat, glyphs: gs }),
                        None => None,
                    },
                    _ => None,
                },
                None => None,
            }
        } else {
            None
        },
        _ => None,
    }
}

/// All runs of the `texts` array, in order; nothing if any run is
/// malformed.
pub open spec fn decode_runs_spec(items: Seq<JsonNode>) -> Option<Seq<GlyphRunView>>
    decreases items.len(),
{
    if items.len() == 0 {
        Some(Seq::empty())
    } else {
        match decode_runs_spec(items.drop_last()) {
            Some(rs) => match decode_run_spec(items.last()) {
                Some(r) => Some(rs.push(r)),
                None => None,
            },
            None => None,
        }
    }
}

/// The text held by the outer document's `TextPageData` member, when the
/// document is an object with such a string member.
pub open spec fn text_field_of(doc: JsonNode) -> Option<Seq<char>> {
    match doc {
        JsonNode::Obj(m) => if m.dom().contains("TextPageData"@) {
            match m["TextPageData"@] {
                JsonNode::Text(t) => Some(t),
                _ => None,
            }
        } else {
            None
        },
        _ => None,
    }
}

/// The element array of the inner document's `texts` member, when the
/// document is an object with such an array member.
pub open spec fn runs_field_of(doc: JsonNode) -> Option<Seq<JsonNode>> {
    match doc {
        JsonNode::Obj(m) => if m.dom().contains("texts"@) {
            match m["texts"@] {
                JsonNode::Arr(items) => Some(items),
                _ => None,
            }
        } else {
            None
        },
        _ => None,
    }
}

/// The whole decode as a function of the raw text: the depth gates, the two
/// parses, the shape checks and the run construction, with each failure
/// mode mapped to its own error.
pub open spec fn annot_decode_of(raw: Seq<char>) -> Result<Seq<GlyphRunView>, AnnotError> {
    if json_depth(vstd::utf8::encode_utf8(raw)) > MAX_JSON_DEPTH as int {
        Err(AnnotError::OuterTooDeep)
    } else {
        match json_doc_of(raw) {
            None => Err(AnnotError::OuterSyntax),
            Some(doc) => match text_field_of(doc) {
                None => Err(AnnotError::OuterShape),
                Some(text) => if json_depth(vstd::utf8::encode_utf8(text)) > MAX_JSON_DEPTH as int {
                    Err(AnnotError::InnerTooDeep)
                } else {
                    match json_doc_of(text) {
                        None => Err(AnnotError::InnerSyntax),
                        Some(inner) => match runs_field_of(inner) {
                            None => Err(AnnotError::InnerShape),
                            Some(items) => match decode_runs_spec(items) {
                                None => Err(AnnotError::InnerShape),
                                Some(runs) => Ok(runs),
                            },
                        },
                    }
                },
            },
        }
    }
}

/// A malformed record anywhere in the array fails the whole array.
proof fn lemma_glyphs_spec_fails(items: Seq<JsonNode>, j: int)
    requires
        0 <= j < items.len(),
        decode_glyph_spec(items[j]) is None,
    ensures
        decode_glyphs_spec(items) is None,
    decreases items.len(),
{
    if j < items.len() - 1 {
        lemma_glyphs_spec_fails(items.drop_last(), j);
    }
}

/// A malformed run anywhere in the array fails the whole array.
proof fn lemma_runs_spec_fails(items: Seq<JsonNode>, j: int)
    requires
        0 <= j < items.len(),
        decode_run_spec(items[j]) is None,
    ensures
        decode_runs_spec(items) is None,
    decreases items.len(),
{
    if j < items.len() - 1 {
        lemma_runs_spec_fails(items.drop_last(), j);
    }
}

// --- the verified walk --------------------------------------------------

/// Reads one baseline transform out of a six-element number array.
fn read_matrix(v: &Value) -> (r: Option<PlacementMatrix>)
    ensures
        r == decode_matrix_spec(value_model(*v)),
{
    match array_length(v) {
        Some(n) if n == 6 => (),
        _ => { return None },
    }
    let sx = match get_element(v, 0) {
        Some(e) => match value_as_bits(e) {
            Some(b) => b,
            None => { return None },
        },
        None => { return None },
    };
    let shy = match get_element(v, 1) {
        Some(e) => match value_as_bits(e) {
            Some(b) => b,
            None => { return None },
        },
        None => { return None },
    };
    let shx = match get_element(v, 2) {
        Some(e) => match value_as_bits(e) {
            Some(b) => b,
            None => { return None },
        },
        None => { return None },
    };
    let sy = match get_element(v, 3) {
        Some(e) => match value_as_bits(e) {
            Some(b) => b,
            None => { return None },
        },
        None => { return None },
    };
    let tx = match get_element(v, 4) {
        Some(e) => match value_as_bits(e) {
            Some(b) => b,
            None => { return None },
        },
        None => { return None },
    };
    let ty = match get_element(v, 5) {
        Some(e) => match value_as_bits(e) {
            Some(b) => b,
            None => { return None },
        },
        None => { return None },
    };
    Some(PlacementMatrix { sx, shy, shx, sy, tx, ty })
}

/// Reads one glyph record out of a five-element array: x, y, two carried
/// values, and a code point that must fit an unsigned 32-bit integer.
fn read_glyph(v: &Value) -> (r: Option<GlyphRecord>)
    ensures
        r == decode_glyph_spec(value_model(*v)),
{
    match array_length(v) {
        Some(n) if n == 5 => (),
        _ => { return None },
    }
    let x = match get_element(v, 0) {
        Some(e) => match value_as_bits(e) {
            Some(b) => b,
            None => { return None },
        },
        None => { return None },
    };
    let y = match get_element(v, 1) {
        Some(e) => match value_as_bits(e) {
            Some(b) => b,
            None => { return None },
        },
        None => { return None },
    };
    let ext_a = match get_element(v, 2) {
        Some(e) => match value_as_bits(e) {
            Some(b) => b,
            None => { return None },
        },
        None => { return None },
    };
    let ext_b = match get_element(v, 3) {
        Some(e) => match value_as_bits(e) {
            Some(b) => b,
            None => { return None },
        },
        None => { return None },
    };
    let code64 = match get_element(v, 4) {
        Some(e) => match value_as_u64(e) {
            Some(c) => c,
            None => { return None },
        },
        None => { return None },
    };
    if code64 > 0xFFFF_FFFF {
        return None;
    }
    let code: u32 = code64 as u32;
    Some(GlyphRecord { x, y, ext_a, ext_b, code })
}

/// Reads one glyph run: its `mt` baseline transform and its `cs` records.
fn read_run(v: &Value) -> (r: Option<GlyphRun>)
    ensures
        (r is Some <==> decode_run_spec(value_model(*v)) is Some),
        (r matches Some(run) ==> run@ == decode_run_spec(value_model(*v))->Some_0),
{
    let matrix = match get_member(v, "mt") {
        Some(mt) => match read_matrix(mt) {
            Some(m) => m,
            None => { return None },
        },
        None => { return None },
    };
    let cs = match get_member(v, "cs") {
        Some(c) => c,
        None => { return None },
    };
    let n = match array_length(cs) {
        Some(n) => n,
        None => { return None },
    };
    let ghost gitems = value_model(*cs)->Arr_0;
    let mut glyphs: Vec<GlyphRecord> = Vec::new();
    let mut j: usize = 0;
    proof {
        assert(gitems.take(0) =~= Seq::<JsonNode>::empty());
    }
    while j < n
        invariant
            0 <= j <= n,
            n == gitems.len(),
            value_model(*cs) == JsonNode::Arr(gitems),
            (value_model(*v) matches JsonNode::Obj(m) && m.dom().contains("mt"@)
                && m.dom().contains("cs"@) && decode_matrix_spec(m["mt"@]) == Some(matrix)
                && m["cs"@] == JsonNode::Arr(gitems)),
            (decode_glyphs_spec(gitems.take(j as int)) == Some(glyphs@)),
        decreases n - j,
    {
        proof {
            assert(gitems.take(j + 1).drop_last() =~= gitems.take(j as int));
            assert(gitems.take(j + 1).last() == gitems[j as int]);
        }
        let e = match get_element(cs, j) {
            Some(e) => e,
            None => { return None },
        };
        match read_glyph(e) {
            Some(g) => glyphs.push(g),
            None => {
                proof {
                    lemma_glyphs_spec_fails(gitems, j as int);
                }
                return None;
            },
        }
        j = j + 1;
    }
    proof {
        assert(gitems.take(n as int) =~= gitems);
    }
    Some(GlyphRun { matrix, glyphs })
}

/// Decodes a page's raw annotation payload into its glyph runs.
///
/// The result is exactly `annot_decode_of` of the raw text: the outer
/// payload must stay within the nesting bound and parse to an object with a
/// string member `TextPageData`; that string must itself stay within the
/// bound and parse to an object with an array member `texts` of well-shaped
/// runs, which become the result in order. Each failure mode yields the
/// error that names it, outer and inner failures distinctly.
pub fn decode_annotation_page(raw: &str) -> (r: Result<AnnotationPage, AnnotError>)
    ensures
        (r matches Ok(p) ==> annot_decode_of(raw@) == Ok::<Seq<GlyphRunView>, AnnotError>(p@)),
        (r matches Err(e) ==> annot_decode_of(raw@) == Err::<Seq<GlyphRunView>, AnnotError>(e)),
{
    if !within_depth_limit(raw) {
        return Err(AnnotError::OuterTooDeep);
    }
    let outer = match parse_document(raw) {
        Some(v) => v,
        None => { return Err(AnnotError::OuterSyntax) },
    };
    let field = match get_member(&outer, "TextPageData") {
        Some(f) => f,
        None => { return Err(AnnotError::OuterShape) },
    };
    let text = match value_as_string(field) {
        Some(t) => t,
        None => { return Err(AnnotError::OuterShape) },
    };
    if !within_depth_limit(text.as_str()) {
        return Err(AnnotError::InnerTooDeep);
    }
    let inner = match parse_document(text.as_str()) {
        Some(v) => v,
        None => { return Err(AnnotError::InnerSyntax) },
    };
    let texts = match get_member(&inner, "texts") {
        Some(t) => t,
        None => { return Err(AnnotError::InnerShape) },
    };
    let n = match array_length(texts) {
        Some(n) => n,
        None => { return Err(AnnotError::InnerShape) },
    };
    let ghost items = value_model(*texts)->Arr_0;
    let mut runs: Vec<GlyphRun> = Vec::new();
    let mut i: usize = 0;
    proof {
        assert(items.take(0) =~= Seq::<JsonNode>::empty());
        assert(runs@.map_values(|x: GlyphRun| x@) =~= Seq::<GlyphRunView>::empty());
    }
    while i < n
        invariant
            0 <= i <= n,
            n == items.len(),
            value_model(*texts) == JsonNode::Arr(items),
            (annot_decode_of(raw@) matches Ok(rs) ==> decode_runs_spec(items) == Some(rs)),
            (decode_runs_spec(items) matches Some(rs) ==> annot_decode_of(raw@) == Ok::<
                Seq<GlyphRunView>,
                AnnotError,
            >(rs)),
            (decode_runs_spec(items) is None ==> annot_decode_of(raw@) == Err::<
                Seq<GlyphRunView>,
                AnnotError,
            >(AnnotError::InnerShape)),
            (decode_runs_spec(items.take(i as int)) == Some(
                runs@.map_values(|x: GlyphRun| x@),
            )),
        decreases n - i,
    {
        proof {
            assert(items.take(i + 1).drop_last() =~= items.take(i as int));
            assert(items.take(i + 1).last() == items[i as int]);
        }
        let elem = match get_element(texts, i) {
            Some(e) => e,
            None => { return Err(AnnotError::InnerShape) },
        };
        match read_run(elem) {
            Some(run) => {
                let ghost prev = runs@.map_values(|x: GlyphRun| x@);
                let ghost run_view = run@;
                runs.push(run);
                proof {
                    assert(runs@.map_values(|x: GlyphRun| x@) =~= prev.push(run_view));
                }
            },
            None => {
                proof {
                    lemma_runs_spec_fails(items, i as int);
                }
                return Err(AnnotError::InnerShape);
            },
        }
        i = i + 1;
    }
    proof {
        assert(items.take(n as int) =~= items);
    }
    let page = AnnotationPage { runs };
    proof {
        assert(page@ == decode_runs_spec(items)->Some_0);
    }
    Ok(page)
}

} // verus!
