use chunk::git::{read_source_prefix, MAX_SOURCE_CONTEXT_BYTES};

#[test]
fn source_prefix_rejects_context_over_byte_cap() {
    let source = "x".repeat(MAX_SOURCE_CONTEXT_BYTES + 1);

    assert!(read_source_prefix(source.as_str(), 1).is_err());
}
