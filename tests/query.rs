use listup_jorei::query::{gen_jorei_url, gen_list_url, push_decimal};

const HEAD: &str = "https://jorei.slis.doshisha.ac.jp/api/reiki/select?f.municipality_id.facet.limit=1788&facet.mincount=1&facet.range=announcement_date&facet.range.gap=%2B1YEAR&facet.range.start=1883-01-01T00%3A00%3A00Z&facet.range.end=NOW&q=collection%3Alatest%20AND%20announcement_date%3A%5B";
const TAIL: &str = "&fq=&facet=true&facet.field=municipality_type&facet.field=city&facet.field=type&facet.field=h_type&facet.field=municipality_id";

fn expected(start: &str, end: &str, offset: usize, rows: usize) -> String {
    format!("{HEAD}{start}%20TO%20{end}%5D&start={offset}&rows={rows}{TAIL}")
}

#[test]
fn list_url_both_bounds() {
    assert_eq!(gen_list_url(Some(2022), Some(2023), 0, 50), expected("2022", "2023", 0, 50));
}

#[test]
fn list_url_open_bounds() {
    assert_eq!(gen_list_url(None, None, 0, 50), expected("*", "*", 0, 50));
    assert_eq!(gen_list_url(Some(1990), None, 1, 50), expected("1990", "*", 50, 50));
    assert_eq!(gen_list_url(None, Some(2000), 1, 50), expected("*", "2000", 50, 50));
}

#[test]
fn list_url_pads_years_to_four_digits() {
    assert_eq!(gen_list_url(Some(5), Some(45), 0, 10), expected("0005", "0045", 0, 10));
    assert_eq!(gen_list_url(Some(0), Some(987), 0, 10), expected("0000", "0987", 0, 10));
    assert_eq!(gen_list_url(Some(12345), None, 0, 10), expected("12345", "*", 0, 10));
}

#[test]
fn list_url_offset_is_page_times_rows() {
    assert_eq!(gen_list_url(None, None, 2, 50), expected("*", "*", 100, 50));
    assert_eq!(gen_list_url(Some(2020), Some(2021), 7, 13), expected("2020", "2021", 91, 13));
    assert_eq!(gen_list_url(None, None, 1, usize::MAX), expected("*", "*", usize::MAX, usize::MAX));
}

#[test]
fn detail_url_selects_by_id() {
    assert_eq!(
        gen_jorei_url("ab-12"),
        "https://jorei.slis.doshisha.ac.jp/api/reiki/select?q=ids%3Aab-12&all=true"
    );
    assert_eq!(
        gen_jorei_url(""),
        "https://jorei.slis.doshisha.ac.jp/api/reiki/select?q=ids%3A&all=true"
    );
}

#[test]
fn decimal_rendering() {
    let mut s = String::from("n=");
    push_decimal(&mut s, 0);
    assert_eq!(s, "n=0");
    let mut s = String::new();
    push_decimal(&mut s, 1234567890);
    assert_eq!(s, "1234567890");
    let mut s = String::new();
    push_decimal(&mut s, usize::MAX);
    assert_eq!(s, usize::MAX.to_string());
}
