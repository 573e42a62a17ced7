use polars::prelude::PolarsError;
use queryer::dataset::{written, DataSet};
use queryer::error::QueryError;
use queryer::loader::{detect_content, ends_with, first_significant, framed, load, Format};

#[test]
fn extension_tells_the_format() {
    let any = b"\x00\x01".to_vec();
    assert_eq!(detect_content("a.csv", &any), Some(Format::Csv));
    assert_eq!(detect_content("https://h/p/a.json", &any), Some(Format::Json));
    assert_eq!(detect_content("a.ndjson", &any), Some(Format::JsonLines));
    assert_eq!(detect_content("a.jsonl", &any), Some(Format::JsonLines));
    assert_eq!(detect_content(".csv", &any), Some(Format::Csv));
    assert_eq!(detect_content("a.csv", &b"[1]".to_vec()), Some(Format::Csv));
    assert_eq!(detect_content("a.CSV", &any), None);
    assert_eq!(detect_content("acsv", &any), None);
    assert_eq!(detect_content("a.csv?x=1", &any), None);
}

#[test]
fn content_tells_the_format() {
    assert_eq!(detect_content("rows", &b"[{\"a\":1}]".to_vec()), Some(Format::Json));
    assert_eq!(detect_content("rows", &b" \t\r\n[".to_vec()), Some(Format::Json));
    assert_eq!(detect_content("rows", &b"{\"a\":1}\n{\"a\":2}\n".to_vec()), Some(Format::JsonLines));
    assert_eq!(detect_content("rows", &b"\n\n{".to_vec()), Some(Format::JsonLines));
    assert_eq!(detect_content("rows", &b"a,b\n1,2\n".to_vec()), Some(Format::Csv));
    assert_eq!(detect_content("rows", &b"\"a\",\"b\"\n".to_vec()), Some(Format::Csv));
    assert_eq!(detect_content("rows", &"é,b\n".as_bytes().to_vec()), Some(Format::Csv));
    assert_eq!(detect_content("rows", &b" ".to_vec()), None);
}

#[test]
fn nothing_tells_the_format() {
    assert_eq!(detect_content("rows", &vec![]), None);
    assert_eq!(detect_content("rows", &b" \n\t\r ".to_vec()), None);
    assert_eq!(detect_content("rows", &b"\x00a,b".to_vec()), None);
    assert_eq!(detect_content("rows", &b"\x1f".to_vec()), None);
    assert_eq!(detect_content("rows", &b"\x7f".to_vec()), None);
    assert_eq!(detect_content("rows", &b"  \x0b".to_vec()), None);
}

#[test]
fn first_significant_byte_skips_blanks() {
    assert_eq!(first_significant(&vec![]), None);
    assert_eq!(first_significant(&b"   ".to_vec()), None);
    assert_eq!(first_significant(&b" \t\r\nx y".to_vec()), Some(b'x'));
    assert_eq!(first_significant(&b"x".to_vec()), Some(b'x'));
    assert_eq!(first_significant(&b"\x0cx".to_vec()), Some(0x0c));
}

#[test]
fn suffixes_are_compared_by_character() {
    assert!(ends_with("a.csv", ".csv"));
    assert!(ends_with(".csv", ".csv"));
    assert!(ends_with("anything", ""));
    assert!(ends_with("", ""));
    assert!(!ends_with("csv", ".csv"));
    assert!(!ends_with("", "x"));
    assert!(!ends_with("a.csv ", ".csv"));
    assert!(!ends_with("a.cs", ".csv"));
    assert!(ends_with("données.é", ".é"));
    assert!(!ends_with("é", "e"));
}

#[test]
fn delimited_text_round_trips() {
    let data = load("t.csv", b"a,b\n1,x\n2,y\n".to_vec()).unwrap();
    assert_eq!(data.height(), 2);
    assert_eq!(data.column_names(), vec!["a".to_string(), "b".to_string()]);
    assert_eq!(data.to_csv().unwrap(), "a,b\n1,x\n2,y\n");
    assert_eq!(data.width(), 2);
}

#[test]
fn header_alone_is_an_empty_dataset() {
    let data = load("t", b"a,b\n".to_vec()).unwrap();
    assert_eq!(data.height(), 0);
    assert_eq!(data.column_names(), vec!["a".to_string(), "b".to_string()]);
    assert_eq!(data.to_csv().unwrap(), "a,b\n");
}

#[test]
fn json_array_is_loaded() {
    let data = load("rows", b"[{\"a\":1,\"b\":\"x\"},{\"a\":2,\"b\":\"y\"}]".to_vec()).unwrap();
    assert_eq!(data.height(), 2);
    assert_eq!(data.to_csv().unwrap(), "a,b\n1,x\n2,y\n");
}

#[test]
fn json_lines_by_extension() {
    let data = load("rows.jsonl", b"{\"a\":1}\n{\"a\":2}\n{\"a\":3}\n".to_vec()).unwrap();
    assert_eq!(data.height(), 3);
    assert_eq!(data.to_csv().unwrap(), "a\n1\n2\n3\n");
}

#[test]
fn content_of_no_format_fails() {
    assert_eq!(load("rows", vec![]).unwrap_err(), QueryError::UnknownFormat);
    assert_eq!(load("rows", b"\x00\x01\x02".to_vec()).unwrap_err(), QueryError::UnknownFormat);
}

#[test]
fn malformed_content_names_the_format() {
    match load("rows.json", b"{ not json".to_vec()).unwrap_err() {
        QueryError::Malformed { format, reason } => {
            assert_eq!(format, Format::Json);
            assert!(!reason.is_empty());
        }
        other => panic!("{other:?}"),
    }
    assert!(matches!(
        load("rows", b"{ not json\n".to_vec()).unwrap_err(),
        QueryError::Malformed { format: Format::JsonLines, .. }
    ));
    assert!(matches!(
        load("rows.csv", b"a,b\n1,2,3,4\n\"open".to_vec()).unwrap_err(),
        QueryError::Malformed { format: Format::Csv, .. }
    ));
}

#[test]
fn decoder_outcome_becomes_the_result() {
    let frame = load("t", b"a\n1\n".to_vec()).unwrap().0;
    let data = framed(Format::Csv, Ok(frame.clone())).unwrap();
    assert!(data.0.equals(&frame));
    assert_eq!(
        framed(Format::JsonLines, Err(PolarsError::ComputeError("boom".into()))).unwrap_err(),
        QueryError::Malformed { format: Format::JsonLines, reason: "boom".to_string() }
    );
    assert_eq!(
        framed(Format::Csv, Err(PolarsError::NoData("empty".into()))).unwrap_err(),
        QueryError::Malformed { format: Format::Csv, reason: "no data: empty".to_string() }
    );
}

#[test]
fn writer_outcome_becomes_the_text() {
    assert_eq!(written(Ok("a\n1\n".to_string())), Ok("a\n1\n".to_string()));
    assert_eq!(
        written(Err(PolarsError::ComputeError("boom".into()))),
        Err(QueryError::Execution("boom".to_string()))
    );
}

#[test]
fn dataset_stands_for_its_frame() {
    let frame = load("t", b"a,b\n1,2\n".to_vec()).unwrap().0;
    let mut data = DataSet::new(frame.clone());
    assert_eq!(data.shape(), (1, 2));
    assert_eq!(data.height(), frame.height());
    data.rename("a", "c".into()).unwrap();
    assert_eq!(data.column_names(), vec!["c".to_string(), "b".to_string()]);
    assert_eq!(data.to_csv().unwrap(), "c,b\n1,2\n");
}
