use object_transfer::Format;

#[test]
fn format_names() {
    assert_eq!(Format::MessagePack.to_string(), "MessagePack");
    assert_eq!(Format::JSON.to_string(), "JSON");
}
