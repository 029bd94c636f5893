use timeless_tools::documents::{
    all_byte_documents, all_documents, byte_document, document, same_documents,
};
use timeless_tools::json::{same_json, Json};

#[test]
fn documents_are_read_by_their_kinds() {
    assert!(matches!(document("null"), Some(Json::Null)));
    assert!(matches!(document(" true "), Some(Json::Bool(true))));
    assert!(matches!(document("18446744073709551615"), Some(Json::Unsigned(u64::MAX))));
    assert!(matches!(document("-9223372036854775808"), Some(Json::Negative(i64::MIN))));
    let Some(Json::Float(bits, print)) = document("2.50") else { panic!("no float") };
    assert_eq!((f64::from_bits(bits), print.as_str()), (2.5, "2.5"));
    let Some(Json::Text(text)) = document("\"a\\u7a7a\\n\"") else { panic!("no text") };
    assert_eq!(text, "a空\n");
    let Some(Json::Array(list)) = document("[1,[],-0]") else { panic!("no array") };
    assert_eq!(list.len(), 3);
    assert!(matches!(&list[1], Json::Array(inner) if inner.is_empty()));
    assert!(matches!(&list[2], Json::Float(bits, _) if f64::from_bits(*bits) == 0.0));
    for text in ["", "{", "nul", "1 2", "[1,]", "'a'", "1e999"] {
        assert!(document(text).is_none(), "{text}");
        assert!(byte_document(text.as_bytes()).is_none(), "{text}");
    }
    assert!(byte_document(b"\"\xff\"").is_none());
}

#[test]
fn members_are_read_in_the_order_of_their_keys() {
    let Some(Json::Object(members)) = byte_document("{\"b\":1,\"空\":2,\"a\":3,\"b\":4}".as_bytes())
    else {
        panic!("no object")
    };
    let keys: Vec<&str> = members.iter().map(|(key, _)| key.as_str()).collect();
    assert_eq!(keys, ["a", "b", "空"]);
    assert!(matches!(members[1].1, Json::Unsigned(4)));
}

#[test]
fn documents_are_compared_by_what_they_hold() {
    assert!(same_documents("{\"a\":[1,2.0],\"b\":null}", " { \"b\" : null , \"a\" : [1,2.00] } "));
    assert!(!same_documents("1", "1.0"));
    assert!(!same_documents("{}", "{"));
    assert!(same_json(&document("[0.5]").unwrap(), &byte_document(b"[5e-1]").unwrap()));
}

#[test]
fn lists_of_documents_are_read_whole_or_not_at_all() {
    let texts = vec!["1".to_owned(), "[]".to_owned()];
    assert_eq!(all_documents(&texts).unwrap().len(), 2);
    assert!(all_documents(&vec!["1".to_owned(), "[".to_owned()]).is_none());
    assert_eq!(all_documents(&vec![]).unwrap().len(), 0);
    assert_eq!(all_byte_documents(&vec![b"1".to_vec(), b"2".to_vec()]).unwrap().len(), 2);
    assert!(all_byte_documents(&vec![b"1".to_vec(), vec![]]).is_none());
}
