use rcli::cli::csv::OutputFormat;
use rcli::process::csv_convert::{convert_table, process_csv, table_rows, zip_fields, CsvError};
use rcli::process::http::{directory_listing, file_reply, Lookup};

fn strings(words: &[&str]) -> Vec<String> {
    words.iter().map(|w| w.to_string()).collect()
}

fn pair(name: &str, field: &str) -> (String, String) {
    (name.to_string(), field.to_string())
}

#[test]
fn fields_are_paired_as_far_as_both_reach() {
    let header = strings(&["Name", "Position", "DOB"]);
    assert_eq!(
        zip_fields(&header, &strings(&["Ann", "Goalkeeper", "1990"])),
        vec![pair("Name", "Ann"), pair("Position", "Goalkeeper"), pair("DOB", "1990")]
    );
    assert_eq!(zip_fields(&header, &strings(&["Ann"])), vec![pair("Name", "Ann")]);
    assert_eq!(
        zip_fields(&strings(&["Name"]), &strings(&["Ann", "Goalkeeper"])),
        vec![pair("Name", "Ann")]
    );
    assert_eq!(zip_fields(&header, &strings(&[])), vec![]);
    assert_eq!(zip_fields(&strings(&[]), &strings(&["Ann"])), vec![]);
}

#[test]
fn each_record_becomes_a_row() {
    let header = strings(&["a", "b"]);
    let records = vec![strings(&["1", "2"]), strings(&["3", "4"])];
    assert_eq!(
        table_rows(&header, &records),
        vec![vec![pair("a", "1"), pair("b", "2")], vec![pair("a", "3"), pair("b", "4")]]
    );
    assert_eq!(table_rows(&header, &vec![]), Vec::<Vec<(String, String)>>::new());
}

#[test]
fn csv_becomes_json() {
    let data = b"Name,Kit Number\nAnn,1\nBob,22\n";
    let text = process_csv(data, OutputFormat::JSON).unwrap();
    assert_eq!(
        text,
        "[\n  {\n    \"Kit Number\": \"1\",\n    \"Name\": \"Ann\"\n  },\n  {\n    \"Kit Number\": \"22\",\n    \"Name\": \"Bob\"\n  }\n]"
    );
}

#[test]
fn csv_becomes_yaml() {
    let data = b"Name,Kit Number\nAnn,1\n";
    let text = process_csv(data, OutputFormat::YAML).unwrap();
    assert_eq!(text, "- Kit Number: '1'\n  Name: Ann\n");
}

#[test]
fn csv_with_a_header_only_is_an_empty_array() {
    assert_eq!(process_csv(b"Name,Position\n", OutputFormat::JSON), Ok("[]".to_string()));
    assert_eq!(process_csv(b"", OutputFormat::JSON), Ok("[]".to_string()));
}

#[test]
fn csv_that_cannot_be_read_is_refused() {
    assert_eq!(process_csv(b"a,b\n1,2,3\n", OutputFormat::JSON), Err(CsvError::InvalidCsv));
    assert_eq!(process_csv(b"a,b\n\xff,2\n", OutputFormat::YAML), Err(CsvError::InvalidCsv));
    assert_eq!(process_csv(b"a,\xff\n1,2\n", OutputFormat::YAML), Err(CsvError::InvalidCsv));
    assert_eq!(convert_table(None, Some(vec![]), OutputFormat::JSON), Err(CsvError::InvalidCsv));
    assert_eq!(
        convert_table(Some(strings(&["a"])), None, OutputFormat::JSON),
        Err(CsvError::InvalidCsv)
    );
    assert_eq!(
        convert_table(Some(strings(&["a"])), Some(vec![strings(&["1"])]), OutputFormat::JSON),
        Ok("[\n  {\n    \"a\": \"1\"\n  }\n]".to_string())
    );
}

#[test]
fn missing_path_is_not_found() {
    assert_eq!(file_reply(Lookup::Missing), (404, "File not found".to_string()));
}

#[test]
fn file_is_answered_with_its_text() {
    assert_eq!(file_reply(Lookup::File("hello".to_string())), (200, "hello".to_string()));
    assert_eq!(file_reply(Lookup::File(String::new())), (200, String::new()));
}

#[test]
fn unreadable_file_is_a_server_error() {
    assert_eq!(
        file_reply(Lookup::Unreadable("denied".to_string())),
        (500, "denied".to_string())
    );
}

#[test]
fn directory_is_answered_with_its_listing() {
    assert_eq!(directory_listing(&vec![]), "<ul></ul>");
    let one = "<ul>\n                <li><a href=\"./a\">./a</a></li>\n                </ul>";
    assert_eq!(directory_listing(&strings(&["./a"])), one);
    let two = "<ul>\n                <li><a href=\"./a\">./a</a></li>\n                \n                <li><a href=\"./b c\">./b c</a></li>\n                </ul>";
    assert_eq!(directory_listing(&strings(&["./a", "./b c"])), two);
    assert_eq!(
        file_reply(Lookup::Directory(strings(&["./a", "./b c"]))),
        (200, two.to_string())
    );
}
