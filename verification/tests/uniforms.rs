//! Name-keyed uniform bookkeeping: add, change, and their error cases.

use tridify_rs::{Uniform, UniformBuffer};

#[test]
fn add_then_read_back() {
    let mut buffer: UniformBuffer<u32> = UniformBuffer::new(Vec::new());
    buffer.add_uniform(Uniform::from_str("scale", 2)).unwrap();
    buffer.add_uniform(Uniform::from_str("offset", 7)).unwrap();
    let held = buffer.uniforms();
    assert_eq!(held.len(), 2);
    assert_eq!(held[0].name(), "scale");
    assert_eq!(*held[0].value(), 2);
    assert_eq!(held[1].name(), "offset");
    assert_eq!(*held[1].value(), 7);
}

#[test]
fn add_duplicate_name_fails_and_keeps_buffer() {
    let mut buffer: UniformBuffer<u32> = UniformBuffer::new(Vec::new());
    buffer.add_uniform(Uniform::from_str("scale", 2)).unwrap();
    let err = buffer.add_uniform(Uniform::from_str("scale", 9));
    assert!(err.is_err());
    assert_eq!(buffer.uniforms().len(), 1);
    assert_eq!(*buffer.uniforms()[0].value(), 2);
}

#[test]
fn change_existing_uniform() {
    let mut buffer: UniformBuffer<u32> = UniformBuffer::new(Vec::new());
    buffer.add_uniform(Uniform::from_str("scale", 2)).unwrap();
    buffer.add_uniform(Uniform::from_str("offset", 7)).unwrap();
    buffer.change_uniform(Uniform::from_str("offset", 8)).unwrap();
    assert_eq!(*buffer.uniforms()[1].value(), 8);
    assert_eq!(*buffer.uniforms()[0].value(), 2);
}

#[test]
fn change_missing_uniform_fails() {
    let mut buffer: UniformBuffer<u32> = UniformBuffer::new(Vec::new());
    buffer.add_uniform(Uniform::from_str("scale", 2)).unwrap();
    let err = buffer.change_uniform(Uniform::from_str("missing", 1));
    assert!(err.is_err());
    assert_eq!(buffer.uniforms().len(), 1);
    assert_eq!(*buffer.uniforms()[0].value(), 2);
}

#[test]
fn has_uniform_matches_by_name_only() {
    let mut buffer: UniformBuffer<u32> = UniformBuffer::new(Vec::new());
    buffer.add_uniform(Uniform::from_str("scale", 2)).unwrap();
    assert!(buffer.has_uniform(&Uniform::from_str("scale", 999)));
    assert!(!buffer.has_uniform(&Uniform::from_str("other", 2)));
}

#[test]
fn clear_empties_buffer() {
    let mut buffer: UniformBuffer<u32> = UniformBuffer::new(Vec::new());
    buffer.add_uniform(Uniform::from_str("scale", 2)).unwrap();
    buffer.clear();
    assert_eq!(buffer.uniforms().len(), 0);
    // the name is free again
    assert!(buffer.add_uniform(Uniform::from_str("scale", 3)).is_ok());
}
