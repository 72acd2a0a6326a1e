use std::sync::Arc;

use query_format::csv::{
    write_csv_string, CSVOutputFormat, CSVWithNamesAndTypesOutputFormat, CSVWithNamesOutputFormat,
    Cell, DataBlock, DataField, DataSchema, FieldEncoderCSV, FileFormatOptions,
};
use query_format::plans::DataType;

fn options() -> FileFormatOptions {
    FileFormatOptions {
        field_delimiter: ",".to_string(),
        record_delimiter: "\n".to_string(),
        quote: "\"".to_string(),
    }
}

fn schema() -> Arc<DataSchema> {
    Arc::new(DataSchema {
        fields: vec![
            DataField {
                name: "id".to_string(),
                data_type: DataType { name: "UInt64".to_string(), sql_name: "BIGINT UNSIGNED".to_string() },
            },
            DataField {
                name: "na\"me".to_string(),
                data_type: DataType { name: "String".to_string(), sql_name: "VARCHAR".to_string() },
            },
        ],
    })
}

#[test]
fn quoting_doubles_quote_characters() {
    let mut buf = b"x".to_vec();
    write_csv_string(b"a\"b\"\"", &mut buf, b'"');
    assert_eq!(buf, b"x\"a\"\"b\"\"\"\"\"".to_vec());
    let mut empty = vec![];
    write_csv_string(b"", &mut empty, b'\'');
    assert_eq!(empty, b"''".to_vec());
}

#[test]
fn prefix_without_names_is_empty() {
    let f = CSVOutputFormat::create(schema(), &options());
    assert!(f.serialize_prefix().is_empty());
}

#[test]
fn prefix_with_names() {
    let f = CSVWithNamesOutputFormat::create(schema(), &options());
    assert_eq!(f.serialize_prefix(), b"\"id\",\"na\"\"me\"\n".to_vec());
}

#[test]
fn prefix_with_names_and_types() {
    let f = CSVWithNamesAndTypesOutputFormat::create(schema(), &options());
    assert_eq!(
        f.serialize_prefix(),
        b"\"id\",\"na\"\"me\"\n\"UInt64\",\"String\"\n".to_vec()
    );
}

#[test]
fn options_choose_delimiters_and_quote() {
    let opts = FileFormatOptions {
        field_delimiter: "|x".to_string(),
        record_delimiter: "\r\n".to_string(),
        quote: "'".to_string(),
    };
    let f = CSVWithNamesOutputFormat::create(schema(), &opts);
    assert_eq!(f.serialize_prefix(), b"'id'|'na\"me'\r\n".to_vec());
}

#[test]
fn block_rows_become_records() {
    let mut f = CSVOutputFormat::create(schema(), &options());
    let block = DataBlock {
        columns: vec![
            vec![Cell::Verbatim(b"1".to_vec()), Cell::Verbatim(b"\\N".to_vec())],
            vec![Cell::Text(b"a,b".to_vec()), Cell::Text(b"say \"hi\"".to_vec())],
        ],
    };
    assert_eq!(
        f.serialize_block(&block),
        b"1,\"a,b\"\n\\N,\"say \"\"hi\"\"\"\n".to_vec()
    );
    assert!(f.finalize().is_empty());
}

#[test]
fn empty_block_writes_nothing() {
    let mut f = CSVOutputFormat::create(schema(), &options());
    let block = DataBlock { columns: vec![vec![], vec![]] };
    assert!(f.serialize_block(&block).is_empty());
}

#[test]
fn encoder_quotes_text_only() {
    let e = FieldEncoderCSV::create(&options());
    let mut buf = vec![];
    e.write_field(&Cell::Text(b"7".to_vec()), &mut buf);
    e.write_field(&Cell::Verbatim(b"7".to_vec()), &mut buf);
    assert_eq!(buf, b"\"7\"7".to_vec());
}

#[test]
fn first_column_gives_the_rows() {
    let mut f = CSVOutputFormat::create(schema(), &options());
    let block = DataBlock {
        columns: vec![
            vec![Cell::Verbatim(b"1".to_vec())],
            vec![Cell::Text(b"a".to_vec()), Cell::Text(b"b".to_vec())],
        ],
    };
    assert_eq!(f.serialize_block(&block), b"1,\"a\"\n".to_vec());
}
