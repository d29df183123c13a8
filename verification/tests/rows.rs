use jsonsql::read::{get_col_names, name_rows, rows_to_json};

fn strings(items: &[&str]) -> Vec<String> {
    items.iter().map(|s| String::from(*s)).collect()
}

fn column(name: &str, index: usize) -> (String, usize) {
    (String::from(name), index)
}

fn pair(name: &str, text: &str) -> (String, String) {
    (String::from(name), String::from(text))
}

#[test]
fn column_names_go_by_index() {
    let columns = vec![column("name", 1), column("age", 2), column("id", 0)];
    assert_eq!(get_col_names(&columns), strings(&["id", "name", "age"]));
    let columns = vec![column("d", 3), column("c", 2), column("b", 1), column("a", 0)];
    assert_eq!(get_col_names(&columns), strings(&["a", "b", "c", "d"]));
    let columns = vec![column("a", 0), column("b", 1)];
    assert_eq!(get_col_names(&columns), strings(&["a", "b"]));
}

#[test]
fn column_names_of_no_columns() {
    assert_eq!(get_col_names(&Vec::new()), Vec::<String>::new());
}

#[test]
fn column_names_with_gaps_in_the_indexes() {
    let columns = vec![column("z", 700), column("y", 5), column("x", usize::MAX)];
    assert_eq!(get_col_names(&columns), strings(&["y", "z", "x"]));
}

#[test]
fn column_names_of_equal_index_stay_as_listed() {
    let columns = vec![column("b", 1), column("first", 0), column("a", 1), column("second", 0)];
    assert_eq!(get_col_names(&columns), strings(&["first", "second", "b", "a"]));
}

#[test]
fn rows_get_the_names_of_their_columns() {
    let names = strings(&["id", "name"]);
    let rows = vec![strings(&["1", "ann"]), strings(&["2", "bob"])];
    assert_eq!(
        name_rows(&names, &rows),
        Some(vec![
            vec![pair("id", "1"), pair("name", "ann")],
            vec![pair("id", "2"), pair("name", "bob")],
        ])
    );
}

#[test]
fn rows_lose_their_apostrophes() {
    let names = strings(&["name"]);
    let rows = vec![strings(&["'O'Brien'"]), strings(&["''"]), strings(&["it\u{2019}s"])];
    assert_eq!(
        name_rows(&names, &rows),
        Some(vec![
            vec![pair("name", "OBrien")],
            vec![pair("name", "")],
            vec![pair("name", "it\u{2019}s")],
        ])
    );
}

#[test]
fn short_row_gets_the_first_names() {
    let names = strings(&["id", "name", "age"]);
    let rows = vec![strings(&["1"]), strings(&[])];
    assert_eq!(name_rows(&names, &rows), Some(vec![vec![pair("id", "1")], vec![]]));
}

#[test]
fn long_row_gives_nothing() {
    let names = strings(&["id"]);
    let rows = vec![strings(&["1"]), strings(&["2", "bob"])];
    assert_eq!(name_rows(&names, &rows), None);
    assert_eq!(rows_to_json(&names, &rows), None);
    assert_eq!(rows_to_json(&Vec::new(), &vec![strings(&["1"])]), None);
}

#[test]
fn rows_as_json() {
    let names = strings(&["id", "name"]);
    let rows = vec![strings(&["1", "ann"]), strings(&["2", "O'Brien"])];
    assert_eq!(
        rows_to_json(&names, &rows),
        Some(String::from("[{\"id\":\"1\",\"name\":\"ann\"},{\"id\":\"2\",\"name\":\"OBrien\"}]"))
    );
}

#[test]
fn no_rows_as_json() {
    assert_eq!(rows_to_json(&strings(&["id"]), &Vec::new()), Some(String::from("[]")));
    assert_eq!(rows_to_json(&Vec::new(), &Vec::new()), Some(String::from("[]")));
    assert_eq!(
        rows_to_json(&strings(&["id"]), &vec![Vec::new(), Vec::new()]),
        Some(String::from("[{},{}]"))
    );
}

#[test]
fn json_escapes_what_json_must() {
    let names = strings(&["say \"a\""]);
    let rows = vec![strings(&["line\nbreak \\ \"quoted\""])];
    assert_eq!(
        rows_to_json(&names, &rows),
        Some(String::from("[{\"say \\\"a\\\"\":\"line\\nbreak \\\\ \\\"quoted\\\"\"}]"))
    );
}

#[test]
fn column_named_twice_keeps_its_place_and_the_last_text() {
    let names = strings(&["a", "b", "a"]);
    let rows = vec![strings(&["1", "2", "3"])];
    assert_eq!(
        rows_to_json(&names, &rows),
        Some(String::from("[{\"a\":\"3\",\"b\":\"2\"}]"))
    );
}
