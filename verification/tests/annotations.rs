use pageforge::annot::decode_annotation_page;
use pageforge::errors::AnnotError;

const GOOD_INNER: &str =
    "{\"texts\":[{\"mt\":[1.5,0.0,0.0,1.5,5.0,6.0],\"cs\":[[10.5,20.25,0.0,0.0,72],[11.0,21.0,0.0,0.0,101]]}]}";

fn wrap_outer(inner: &str) -> String {
    format!("{{\"TextPageData\":{:?}}}", inner)
}

#[test]
fn well_formed_payload_decodes_to_runs() {
    let raw = wrap_outer(GOOD_INNER);
    let page = decode_annotation_page(&raw).expect("payload must decode");
    assert_eq!(page.runs.len(), 1);
    let run = &page.runs[0];
    assert_eq!(run.matrix.sx, (1.5f64).to_bits());
    assert_eq!(run.matrix.shy, (0.0f64).to_bits());
    assert_eq!(run.matrix.shx, (0.0f64).to_bits());
    assert_eq!(run.matrix.sy, (1.5f64).to_bits());
    assert_eq!(run.matrix.tx, (5.0f64).to_bits());
    assert_eq!(run.matrix.ty, (6.0f64).to_bits());
    assert_eq!(run.glyphs.len(), 2);
    assert_eq!(run.glyphs[0].x, (10.5f64).to_bits());
    assert_eq!(run.glyphs[0].y, (20.25f64).to_bits());
    assert_eq!(run.glyphs[0].code, 72);
    assert_eq!(run.glyphs[1].x, (11.0f64).to_bits());
    assert_eq!(run.glyphs[1].code, 101);
}

#[test]
fn empty_run_list_decodes_to_no_runs() {
    let raw = wrap_outer("{\"texts\":[]}");
    let page = decode_annotation_page(&raw).expect("empty run list must decode");
    assert_eq!(page.runs.len(), 0);
}

#[test]
fn deeply_nested_outer_payload_is_rejected_not_parsed() {
    let deep = "[".repeat(200);
    assert_eq!(decode_annotation_page(&deep).unwrap_err(), AnnotError::OuterTooDeep);
}

#[test]
fn deeply_nested_inner_payload_is_rejected_after_outer_decode() {
    // The brackets sit inside the outer document's string value, so the
    // outer scan must not count them; only the inner parse is refused.
    let inner = "[".repeat(200);
    let raw = wrap_outer(&inner);
    assert_eq!(decode_annotation_page(&raw).unwrap_err(), AnnotError::InnerTooDeep);
}

#[test]
fn nesting_at_the_bound_is_still_parsed() {
    let mut inner = String::new();
    for _ in 0..12 {
        inner.push('[');
    }
    for _ in 0..12 {
        inner.push(']');
    }
    let raw = wrap_outer(&inner);
    // Shallow enough to parse; what fails is the shape check, not the depth bound.
    assert_eq!(decode_annotation_page(&raw).unwrap_err(), AnnotError::InnerShape);
}

#[test]
fn outer_garbage_is_an_outer_syntax_error() {
    assert_eq!(decode_annotation_page("not json at all").unwrap_err(), AnnotError::OuterSyntax);
}

#[test]
fn missing_text_field_is_an_outer_shape_error() {
    assert_eq!(decode_annotation_page("{\"other\":1}").unwrap_err(), AnnotError::OuterShape);
    assert_eq!(decode_annotation_page("5").unwrap_err(), AnnotError::OuterShape);
}

#[test]
fn non_string_text_field_is_an_outer_shape_error() {
    assert_eq!(
        decode_annotation_page("{\"TextPageData\":42}").unwrap_err(),
        AnnotError::OuterShape
    );
}

#[test]
fn garbled_nested_payload_is_an_inner_syntax_error() {
    let raw = wrap_outer("{broken");
    assert_eq!(decode_annotation_page(&raw).unwrap_err(), AnnotError::InnerSyntax);
}

#[test]
fn nested_payload_without_texts_is_an_inner_shape_error() {
    let raw = wrap_outer("{\"other\":[]}");
    assert_eq!(decode_annotation_page(&raw).unwrap_err(), AnnotError::InnerShape);
}

#[test]
fn short_matrix_is_an_inner_shape_error() {
    let raw = wrap_outer("{\"texts\":[{\"mt\":[1.0,0.0,0.0,1.0,5.0],\"cs\":[]}]}");
    assert_eq!(decode_annotation_page(&raw).unwrap_err(), AnnotError::InnerShape);
}

#[test]
fn short_glyph_record_is_an_inner_shape_error() {
    let raw = wrap_outer(
        "{\"texts\":[{\"mt\":[1.0,0.0,0.0,1.0,5.0,6.0],\"cs\":[[1.0,2.0,0.0,72]]}]}",
    );
    assert_eq!(decode_annotation_page(&raw).unwrap_err(), AnnotError::InnerShape);
}

#[test]
fn oversized_code_point_is_an_inner_shape_error() {
    let raw = wrap_outer(
        "{\"texts\":[{\"mt\":[1.0,0.0,0.0,1.0,5.0,6.0],\"cs\":[[1.0,2.0,0.0,0.0,4294967296]]}]}",
    );
    assert_eq!(decode_annotation_page(&raw).unwrap_err(), AnnotError::InnerShape);
}

#[test]
fn negative_code_point_is_an_inner_shape_error() {
    let raw = wrap_outer(
        "{\"texts\":[{\"mt\":[1.0,0.0,0.0,1.0,5.0,6.0],\"cs\":[[1.0,2.0,0.0,0.0,-1]]}]}",
    );
    assert_eq!(decode_annotation_page(&raw).unwrap_err(), AnnotError::InnerShape);
}
