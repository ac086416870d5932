use pageforge::assemble::{Assembler, Phase};
use pageforge::errors::{AnnotError, FetchFailure, RunError};

fn crc32(data: &[u8]) -> u32 {
    let mut crc: u32 = 0xFFFF_FFFF;
    for &b in data {
        crc ^= b as u32;
        for _ in 0..8 {
            if crc & 1 != 0 {
                crc = (crc >> 1) ^ 0xEDB8_8320;
            } else {
                crc >>= 1;
            }
        }
    }
    !crc
}

fn adler32(data: &[u8]) -> u32 {
    let mut a: u32 = 1;
    let mut b: u32 = 0;
    for &x in data {
        a = (a + x as u32) % 65521;
        b = (b + a) % 65521;
    }
    (b << 16) | a
}

fn push_chunk(png: &mut Vec<u8>, type_and_data: &[u8]) {
    let len = (type_and_data.len() - 4) as u32;
    png.extend_from_slice(&len.to_be_bytes());
    png.extend_from_slice(type_and_data);
    png.extend_from_slice(&crc32(type_and_data).to_be_bytes());
}

/// A minimal valid grayscale PNG of the given pixel dimensions.
fn make_png(w: u32, h: u32) -> Vec<u8> {
    let mut png: Vec<u8> = vec![137, 80, 78, 71, 13, 10, 26, 10];
    let mut ihdr: Vec<u8> = Vec::new();
    ihdr.extend_from_slice(b"IHDR");
    ihdr.extend_from_slice(&w.to_be_bytes());
    ihdr.extend_from_slice(&h.to_be_bytes());
    ihdr.extend_from_slice(&[8, 0, 0, 0, 0]);
    push_chunk(&mut png, &ihdr);
    let mut raw: Vec<u8> = Vec::new();
    for _ in 0..h {
        raw.push(0);
        for _ in 0..w {
            raw.push(128);
        }
    }
    let mut z: Vec<u8> = vec![0x78, 0x01];
    let len = raw.len() as u16;
    z.push(0x01);
    z.extend_from_slice(&len.to_le_bytes());
    z.extend_from_slice(&(!len).to_le_bytes());
    z.extend_from_slice(&raw);
    z.extend_from_slice(&adler32(&raw).to_be_bytes());
    let mut idat: Vec<u8> = Vec::new();
    idat.extend_from_slice(b"IDAT");
    idat.extend_from_slice(&z);
    push_chunk(&mut png, &idat);
    let iend: Vec<u8> = b"IEND".to_vec();
    push_chunk(&mut png, &iend);
    png
}

fn annots_payload(inner: &str) -> String {
    format!("{{\"TextPageData\":{:?}}}", inner)
}

const RUNS_INNER: &str =
    "{\"texts\":[{\"mt\":[2.0,0.0,0.0,2.0,3.0,4.0],\"cs\":[[7.5,8.5,0.0,0.0,72],[9.0,10.0,0.0,0.0,105]]}]}";

const NO_RUNS_INNER: &str = "{\"texts\":[]}";

#[test]
fn bootstrap_page_keeps_its_image_dimensions() {
    let mut builder = Assembler::new();
    assert_eq!(builder.phase, Phase::Bootstrapping);
    builder.bootstrap_step(Ok(make_png(24, 36))).expect("bootstrap must succeed");
    assert_eq!(builder.phase, Phase::Streaming);
    assert_eq!(builder.pages.len(), 1);
    assert_eq!(builder.pages[0].px_w, 24);
    assert_eq!(builder.pages[0].px_h, 36);
    assert_eq!(builder.pages[0].draws.len(), 0);
}

#[test]
fn bootstrap_decode_failure_aborts_with_zero_pages() {
    let mut builder = Assembler::new();
    let r = builder.bootstrap_step(Ok(b"this is no raster image".to_vec()));
    assert_eq!(r.unwrap_err(), RunError::BootstrapDecode);
    assert_eq!(builder.phase, Phase::Aborted);
    assert_eq!(builder.pages.len(), 0);
}

#[test]
fn zero_width_raster_counts_as_failed_decode() {
    let mut builder = Assembler::new();
    let r = builder.bootstrap_step(Ok(make_png(0, 5)));
    assert_eq!(r.unwrap_err(), RunError::BootstrapDecode);
    assert_eq!(builder.pages.len(), 0);
}

#[test]
fn bootstrap_fetch_failure_aborts_with_zero_pages() {
    let mut builder = Assembler::new();
    let r = builder.bootstrap_step(Err(FetchFailure::Transport));
    assert_eq!(r.unwrap_err(), RunError::Fetch(FetchFailure::Transport));
    assert_eq!(builder.phase, Phase::Aborted);
    assert_eq!(builder.pages.len(), 0);
}

#[test]
fn streamed_page_composites_glyphs_with_overridden_translation() {
    let mut builder = Assembler::new();
    builder.bootstrap_step(Ok(make_png(10, 10))).unwrap();
    let cont = builder
        .stream_step(Ok(make_png(30, 40)), Ok(annots_payload(RUNS_INNER)))
        .expect("streamed page must be accepted");
    assert!(cont);
    assert_eq!(builder.pages.len(), 2);
    let page = &builder.pages[1];
    assert_eq!(page.px_w, 30);
    assert_eq!(page.px_h, 40);
    assert_eq!(page.draws.len(), 2);
    assert_eq!(page.draws[0].code, 72);
    assert_eq!(page.draws[0].matrix.sx, (2.0f64).to_bits());
    assert_eq!(page.draws[0].matrix.sy, (2.0f64).to_bits());
    assert_eq!(page.draws[0].matrix.tx, (7.5f64).to_bits());
    assert_eq!(page.draws[0].matrix.ty, (8.5f64).to_bits());
    assert_eq!(page.draws[1].code, 105);
    assert_eq!(page.draws[1].matrix.tx, (9.0f64).to_bits());
    assert_eq!(page.draws[1].matrix.ty, (10.0f64).to_bits());
}

#[test]
fn surrogate_code_points_are_skipped_not_fatal() {
    let inner = "{\"texts\":[{\"mt\":[1.0,0.0,0.0,1.0,0.0,0.0],\"cs\":[[1.0,2.0,0.0,0.0,55296],[3.0,4.0,0.0,0.0,65]]}]}";
    let mut builder = Assembler::new();
    builder.bootstrap_step(Ok(make_png(10, 10))).unwrap();
    builder.stream_step(Ok(make_png(10, 10)), Ok(annots_payload(inner))).unwrap();
    let page = &builder.pages[1];
    assert_eq!(page.draws.len(), 1);
    assert_eq!(page.draws[0].code, 65);
    assert_eq!(page.draws[0].matrix.tx, (3.0f64).to_bits());
}

#[test]
fn undecodable_image_after_good_pages_finishes_with_exactly_those_pages() {
    let mut builder = Assembler::new();
    builder.bootstrap_step(Ok(make_png(10, 12))).unwrap();
    builder.stream_step(Ok(make_png(14, 16)), Ok(annots_payload(NO_RUNS_INNER))).unwrap();
    let r = builder.stream_step(Ok(b"not a png".to_vec()), Ok(annots_payload(NO_RUNS_INNER)));
    assert_eq!(r.unwrap(), false);
    assert_eq!(builder.phase, Phase::Finished);
    assert_eq!(builder.pages.len(), 2);
}

#[test]
fn image_fetch_failure_while_streaming_is_fatal() {
    let mut builder = Assembler::new();
    builder.bootstrap_step(Ok(make_png(10, 10))).unwrap();
    let r = builder.stream_step(Err(FetchFailure::Status(404)), Ok(annots_payload(NO_RUNS_INNER)));
    assert_eq!(r.unwrap_err(), RunError::Fetch(FetchFailure::Status(404)));
    assert_eq!(builder.phase, Phase::Aborted);
}

#[test]
fn annotation_fetch_failure_with_good_image_is_fatal() {
    let mut builder = Assembler::new();
    builder.bootstrap_step(Ok(make_png(10, 10))).unwrap();
    let r = builder.stream_step(Ok(make_png(10, 10)), Err(FetchFailure::Status(500)));
    assert_eq!(r.unwrap_err(), RunError::Fetch(FetchFailure::Status(500)));
    assert_eq!(builder.phase, Phase::Aborted);
}

#[test]
fn malformed_annotation_payload_is_fatal_with_outer_syntax() {
    let mut builder = Assembler::new();
    builder.bootstrap_step(Ok(make_png(10, 10))).unwrap();
    let r = builder.stream_step(Ok(make_png(10, 10)), Ok("not json".to_string()));
    assert_eq!(r.unwrap_err(), RunError::Annotation(AnnotError::OuterSyntax));
    assert_eq!(builder.phase, Phase::Aborted);
}

#[test]
fn missing_text_field_in_payload_is_fatal_while_streaming() {
    let mut builder = Assembler::new();
    builder.bootstrap_step(Ok(make_png(10, 10))).unwrap();
    let r = builder.stream_step(Ok(make_png(10, 10)), Ok("{\"other\":1}".to_string()));
    assert_eq!(r.unwrap_err(), RunError::Annotation(AnnotError::OuterShape));
    assert_eq!(builder.phase, Phase::Aborted);
    assert_eq!(builder.pages.len(), 1);
}

#[test]
fn malformed_run_list_is_fatal_while_streaming() {
    let mut builder = Assembler::new();
    builder.bootstrap_step(Ok(make_png(10, 10))).unwrap();
    let r = builder.stream_step(Ok(make_png(10, 10)), Ok(annots_payload("{\"other\":[]}")));
    assert_eq!(r.unwrap_err(), RunError::Annotation(AnnotError::InnerShape));
    assert_eq!(builder.phase, Phase::Aborted);
    assert_eq!(builder.pages.len(), 1);
}

#[test]
fn three_page_round_trip_keeps_sizes_order_and_code_points() {
    let mut builder = Assembler::new();
    builder.bootstrap_step(Ok(make_png(20, 25))).unwrap();
    let page2 = "{\"texts\":[{\"mt\":[1.0,0.0,0.0,1.0,0.0,0.0],\"cs\":[[1.0,1.0,0.0,0.0,72],[2.0,1.0,0.0,0.0,105]]}]}";
    let page3 = "{\"texts\":[{\"mt\":[1.0,0.0,0.0,1.0,0.0,0.0],\"cs\":[[1.0,2.0,0.0,0.0,33]]}]}";
    assert!(builder.stream_step(Ok(make_png(30, 35)), Ok(annots_payload(page2))).unwrap());
    assert!(builder.stream_step(Ok(make_png(40, 45)), Ok(annots_payload(page3))).unwrap());
    let r = builder.stream_step(Ok(Vec::new()), Ok(annots_payload(NO_RUNS_INNER)));
    assert_eq!(r.unwrap(), false);
    let pages = builder.into_pages();
    assert_eq!(pages.len(), 3);
    assert_eq!((pages[0].px_w, pages[0].px_h), (20, 25));
    assert_eq!((pages[1].px_w, pages[1].px_h), (30, 35));
    assert_eq!((pages[2].px_w, pages[2].px_h), (40, 45));
    let codes: Vec<u32> = pages
        .iter()
        .flat_map(|p| p.draws.iter().map(|d| d.code))
        .collect();
    assert_eq!(codes, vec![72, 105, 33]);
}
