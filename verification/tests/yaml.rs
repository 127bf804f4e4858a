use dubbo_rpc::yaml::parse_document;
use dubbo_rpc::yaml::read_key;
use dubbo_rpc::yaml::yaml_key_reader;
use dubbo_rpc::yaml::Yaml;
use dubbo_rpc::yaml::YamlEntry;
use dubbo_rpc::yaml::YamlError;

const DOCUMENT: &str = "\
logging:
  level: INFO
  file:
    path: /tmp/dubbo.log
    size: 10
    rotate: true
    none: ~
dubbo:
  protocols:
    dubbo:
      ip: 0.0.0.0
      port: '8888'
      name: dubbo
  tagged: !secret hidden
  deep: !wrap
    inner: found
list:
  - a
  - b
1: number key
";

#[test]
fn test_yaml_key_reader() {
    let config = yaml_key_reader(DOCUMENT.as_bytes(), "logging.level").unwrap();
    println!("{:?}", config);
    assert_eq!(config, Some("INFO".to_string()));
    let config = yaml_key_reader(DOCUMENT.as_bytes(), "logging.file.path").unwrap();
    println!("{:?}", config);
    assert_eq!(config, Some("/tmp/dubbo.log".to_string()));
}

#[test]
fn missing_keys_and_nulls_give_none() {
    let data = DOCUMENT.as_bytes();
    assert_eq!(yaml_key_reader(data, "logging.nothing"), Ok(None));
    assert_eq!(yaml_key_reader(data, "nothing.at.all"), Ok(None));
    assert_eq!(yaml_key_reader(data, "logging.file.none"), Ok(None));
    assert_eq!(yaml_key_reader(data, "logging.level.deeper"), Ok(None));
    assert_eq!(yaml_key_reader(data, "list.0"), Ok(None));
    assert_eq!(yaml_key_reader(data, "1"), Ok(None));
    assert_eq!(yaml_key_reader(data, ""), Ok(None));
    assert_eq!(yaml_key_reader(data, "logging."), Ok(None));
    assert_eq!(yaml_key_reader(data, ".logging"), Ok(None));
    assert_eq!(yaml_key_reader(data, "Logging.level"), Ok(None));
}

#[test]
fn values_that_are_no_text_are_an_error() {
    let data = DOCUMENT.as_bytes();
    assert_eq!(yaml_key_reader(data, "logging"), Err(YamlError::NotText));
    assert_eq!(yaml_key_reader(data, "logging.file.size"), Err(YamlError::NotText));
    assert_eq!(yaml_key_reader(data, "logging.file.rotate"), Err(YamlError::NotText));
    assert_eq!(yaml_key_reader(data, "list"), Err(YamlError::NotText));
}

#[test]
fn quoted_numbers_are_text_and_tags_are_looked_through() {
    let data = DOCUMENT.as_bytes();
    assert_eq!(yaml_key_reader(data, "dubbo.protocols.dubbo.port"), Ok(Some("8888".to_string())));
    assert_eq!(yaml_key_reader(data, "dubbo.protocols.dubbo.ip"), Ok(Some("0.0.0.0".to_string())));
    assert_eq!(yaml_key_reader(data, "dubbo.tagged"), Ok(Some("hidden".to_string())));
    assert_eq!(yaml_key_reader(data, "dubbo.deep.inner"), Ok(Some("found".to_string())));
}

#[test]
fn what_is_no_yaml_is_invalid() {
    assert_eq!(yaml_key_reader(b"a: [1, 2", "a"), Err(YamlError::Invalid));
    assert_eq!(yaml_key_reader(b"\xff\xfe", "a"), Err(YamlError::Invalid));
    assert_eq!(parse_document(b"a: [1, 2"), None);
    assert_eq!(yaml_key_reader(b"", "a"), Ok(None));
    assert_eq!(parse_document(b""), Some(Yaml::Null));
}

#[test]
fn documents_parse_to_plain_values() {
    let doc = parse_document(b"a: x\nb: [1, -2.5, true, ~]\nc: !t v\n").unwrap();
    let expected = Yaml::Mapping(vec![
        YamlEntry { key: Yaml::String("a".to_string()), value: Yaml::String("x".to_string()) },
        YamlEntry {
            key: Yaml::String("b".to_string()),
            value: Yaml::Sequence(vec![
                Yaml::Number("1".to_string()),
                Yaml::Number("-2.5".to_string()),
                Yaml::Bool(true),
                Yaml::Null,
            ]),
        },
        YamlEntry {
            key: Yaml::String("c".to_string()),
            value: Yaml::Tagged("!t".to_string(), Box::new(Yaml::String("v".to_string()))),
        },
    ]);
    assert_eq!(doc, expected);
    assert_eq!(read_key(&doc, "a"), Ok(Some("x".to_string())));
    assert_eq!(read_key(&doc, "c"), Ok(Some("v".to_string())));
    assert_eq!(read_key(&doc, "b"), Err(YamlError::NotText));
}

#[test]
fn lookup_works_on_values_built_by_hand() {
    let inner = Yaml::Mapping(vec![
        YamlEntry { key: Yaml::Number("1".to_string()), value: Yaml::String("by number".to_string()) },
        YamlEntry { key: Yaml::String("k".to_string()), value: Yaml::String("first".to_string()) },
        YamlEntry { key: Yaml::String("k".to_string()), value: Yaml::String("second".to_string()) },
        YamlEntry { key: Yaml::String("n".to_string()), value: Yaml::Null },
    ]);
    let doc = Yaml::Tagged(
        "!outer".to_string(),
        Box::new(Yaml::Tagged("!inner".to_string(), Box::new(Yaml::Mapping(vec![YamlEntry {
            key: Yaml::String("a".to_string()),
            value: inner,
        }])))),
    );
    assert_eq!(read_key(&doc, "a.k"), Ok(Some("first".to_string())));
    assert_eq!(read_key(&doc, "a.1"), Ok(None));
    assert_eq!(read_key(&doc, "a.n"), Ok(None));
    assert_eq!(read_key(&doc, "a.n.x"), Ok(None));
    assert_eq!(read_key(&doc, "a"), Err(YamlError::NotText));
    assert_eq!(doc.untag().get("a").unwrap().get("k"), Some(&Yaml::String("first".to_string())));
    assert_eq!(doc.get("b"), None);
    assert_eq!(Yaml::Null.get("a"), None);
    assert_eq!(Yaml::String("s".to_string()).as_text(), Ok(Some("s".to_string())));
    assert_eq!(Yaml::Bool(false).as_text(), Err(YamlError::NotText));
}
