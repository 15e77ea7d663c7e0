use doodle::uniforms::{UniformBlock, CAMERA_AND_MODEL_WORDS, CAMERA_WORDS, ONE_BITS};

fn matrix(start: f32) -> [u32; 16] {
    let mut m = [0u32; 16];
    for (i, w) in m.iter_mut().enumerate() {
        *w = (start + i as f32 * 0.5).to_bits();
    }
    m
}

fn block(model: Option<[u32; 16]>) -> UniformBlock {
    UniformBlock {
        projection: matrix(1.0),
        inverse_projection: matrix(-3.25),
        view: matrix(100.0),
        eye: [1.5f32.to_bits(), (-2.0f32).to_bits(), f32::NAN.to_bits()],
        model,
    }
}

#[test]
fn layout_offsets() {
    let b = block(Some(matrix(7.0)));
    let w = b.to_words();
    assert_eq!(w.len(), CAMERA_AND_MODEL_WORDS);
    assert_eq!(&w[0..16], &b.projection);
    assert_eq!(&w[16..32], &b.inverse_projection);
    assert_eq!(&w[32..48], &b.view);
    assert_eq!(&w[48..51], &b.eye);
    assert_eq!(w[51], 1.0f32.to_bits());
    assert_eq!(&w[52..68], &matrix(7.0));
}

#[test]
fn one_bits_is_one() {
    assert_eq!(f32::from_bits(ONE_BITS), 1.0);
}

#[test]
fn round_trip_with_model() {
    let b = block(Some(matrix(-9.0)));
    let back = UniformBlock::from_words(&b.to_words()).unwrap();
    assert_eq!(back.projection, b.projection);
    assert_eq!(back.inverse_projection, b.inverse_projection);
    assert_eq!(back.view, b.view);
    assert_eq!(back.eye, b.eye);
    assert_eq!(back.model, b.model);
}

#[test]
fn round_trip_camera_only() {
    let b = block(None);
    let w = b.to_words();
    assert_eq!(w.len(), CAMERA_WORDS);
    let back = UniformBlock::from_words(&w).unwrap();
    assert_eq!(back.eye, b.eye);
    assert_eq!(back.view, b.view);
    assert!(back.model.is_none());
}

#[test]
fn unpack_rejects_wrong_length() {
    let w = block(None).to_words();
    assert!(UniformBlock::from_words(&w[..51]).is_none());
    let mut longer = w.clone();
    longer.push(0);
    assert!(UniformBlock::from_words(&longer).is_none());
}

#[test]
fn unpack_rejects_missing_flag() {
    let mut w = block(None).to_words();
    w[51] = 0;
    assert!(UniformBlock::from_words(&w).is_none());
}
