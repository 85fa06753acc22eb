use transmission_rss::markup::{nesting_of, MAX_NESTING};

#[test]
fn nesting_limit() {
    assert_eq!(MAX_NESTING, 64);
}

#[test]
fn text_without_markup_is_flat() {
    assert_eq!(nesting_of(b""), 0);
    assert_eq!(nesting_of(b"just text > more text"), 0);
    assert_eq!(nesting_of(b"a &amp; b"), 0);
}

#[test]
fn elements_side_by_side_do_not_add_up() {
    assert_eq!(nesting_of(b"<a></a>"), 1);
    assert_eq!(nesting_of(b"<a></a><b></b><c></c>"), 1);
    assert_eq!(nesting_of(b"<a><b></b><c></c></a>"), 2);
    assert_eq!(nesting_of(b"<a><b><c></c></b><d></d></a>"), 3);
}

#[test]
fn empty_element_is_closed_at_once() {
    assert_eq!(nesting_of(b"<a/>"), 1);
    assert_eq!(nesting_of(b"<a/><b/><c/>"), 1);
    assert_eq!(nesting_of(b"<a><b/><c/></a>"), 2);
    assert_eq!(nesting_of(b"<a><b x=\"1\" /><c><d/></c></a>"), 3);
}

#[test]
fn typical_feed_is_four_deep() {
    let doc = b"<?xml version=\"1.0\" encoding=\"UTF-8\"?>\n\
<!-- generated <by> a </tool> -->\n\
<rss version=\"2.0\" xmlns:torrent=\"http://xmlns.ezrss.it/0.1/\">\n\
<channel><title>Shows</title><link>http://example.com</link>\n\
<description><![CDATA[<p>All <b>shows</b></p>]]></description>\n\
<item><title>Show S01E01</title>\n\
<description><![CDATA[<div><img src=\"a.png\"><br></div>]]></description>\n\
<enclosure url=\"http://example.com/1.torrent?a=1&amp;b=2\" length=\"1\" type=\"application/x-bittorrent\"/>\n\
<torrent:infoHash>abc</torrent:infoHash></item>\n\
</channel></rss>";
    assert_eq!(nesting_of(doc), 4);
}

#[test]
fn markup_in_character_data_is_not_counted() {
    assert_eq!(nesting_of(b"<a><![CDATA[<b><c><d>]]></a>"), 1);
    assert_eq!(nesting_of(b"<a><![CDATA[]]></a><b><c/></b>"), 2);
    assert_eq!(nesting_of(b"<a><![CDATA[ ]] > ]]]></a>"), 1);
    assert_eq!(nesting_of(b"<![CDATA[</a></a>]]><a><b></b></a>"), 2);
}

#[test]
fn markup_in_comments_and_instructions_is_not_counted() {
    assert_eq!(nesting_of(b"<a><!-- <b><c> --></a>"), 1);
    assert_eq!(nesting_of(b"<a><!----></a>"), 1);
    assert_eq!(nesting_of(b"<a><!-- -> --></a><b><c/></b>"), 2);
    assert_eq!(nesting_of(b"<?xml version=\"1.0\"?><a><?pi <b><c> ?></a>"), 1);
    assert_eq!(nesting_of(b"<?><a><b/></a>"), 2);
}

#[test]
fn comment_needs_its_own_closing_dashes() {
    assert_eq!(nesting_of(b"<!--><a><b><c>"), 0);
    assert_eq!(nesting_of(b"<!---><a><b><c>"), 0);
    assert_eq!(nesting_of(b"<!--><a><b>--><c><d>"), 2);
}

#[test]
fn angle_bracket_in_quotes_does_not_end_a_tag() {
    assert_eq!(nesting_of(b"<a x=\"1>2\"><b y='>'></b></a>"), 2);
    assert_eq!(nesting_of(b"<a x=\"</a><b><c><d>\"></a>"), 1);
    assert_eq!(nesting_of(b"<a x='\"'><b y=\"'\"></b></a>"), 2);
    assert_eq!(nesting_of(b"<a></a x=\">\"><b></b>"), 1);
}

#[test]
fn walk_stops_at_markup_that_is_not_closed() {
    assert_eq!(nesting_of(b"<a><b"), 1);
    assert_eq!(nesting_of(b"<a><"), 1);
    assert_eq!(nesting_of(b"<a><b x=\"><c><d>"), 1);
    assert_eq!(nesting_of(b"<a><![CDATA[<b><c>"), 1);
    assert_eq!(nesting_of(b"<a><!-- <b><c>"), 1);
    assert_eq!(nesting_of(b"<a><?pi <b><c>"), 1);
    assert_eq!(nesting_of(b"<a><!"), 1);
}

#[test]
fn unmatched_end_tags_do_not_go_below_zero() {
    assert_eq!(nesting_of(b"</a></a><b></b>"), 1);
    assert_eq!(nesting_of(b"<a></a></a><b><c></c></b>"), 2);
}

#[test]
fn document_type_declaration_is_passed_over() {
    assert_eq!(nesting_of(b"<!DOCTYPE rss><rss><channel></channel></rss>"), 2);
    assert_eq!(nesting_of(b"<a><!doctype x><b/>"), 2);
    assert_eq!(nesting_of(b"<!DOCTYPE><a/>"), 1);
    let doc = b"<?xml version=\"1.0\"?>\n\
<!DOCTYPE rss PUBLIC \"-//Netscape Communications//DTD RSS 0.91//EN\" \
\"http://my.netscape.com/publish/formats/rss-0.91.dtd\">\n\
<rss version=\"0.91\"><channel><item><title>Show</title></item></channel></rss>";
    assert_eq!(nesting_of(doc), 4);
}

#[test]
fn angle_bracket_in_quotes_does_not_end_a_declaration() {
    assert_eq!(nesting_of(b"<!DOCTYPE x SYSTEM \"a>b<c\"><a><b/></a>"), 2);
    assert_eq!(nesting_of(b"<!DOCTYPE x SYSTEM 'a>[\"'><a><b/></a>"), 2);
    assert_eq!(nesting_of(b"<!DOCTYPE x SYSTEM \"a><a><b><c>"), 0);
    assert_eq!(nesting_of(b"<a><!DOCTYPE x <b><c>"), 2);
}

#[test]
fn internal_subset_is_passed_over() {
    assert_eq!(nesting_of(b"<!DOCTYPE x [<!ENTITY a \"b\">]><a></a>"), 1);
    assert_eq!(nesting_of(b"<a><!DOCTYPE x []><b/>"), 2);
    assert_eq!(nesting_of(b"<!DOCTYPE x [<!ELEMENT a (b)><!ATTLIST a b CDATA '>'>] ><a><b/></a>"), 2);
    assert_eq!(nesting_of(b"<!DOCTYPE x [<!-- ] <c> --><!ENTITY e \"]><c><c>\">]><a><b/></a>"), 2);
    assert_eq!(nesting_of(b"<!DOCTYPE x [<?p ]><c><c> ?><!NOTATION n SYSTEM \">]\">]><a/>"), 1);
    assert_eq!(nesting_of(b"<!DOCTYPE x [<!FOO '>]><a><b><c/></b></a>"), 3);
    let doc = b"<?xml version=\"1.0\"?>\n<!DOCTYPE rss [\n  <!ENTITY nbsp \"&#160;\">\n  \
<!ENTITY copy \"&#169;\">\n]>\n<rss version=\"2.0\"><channel><item><title>Show</title></item>\
</channel></rss>";
    assert_eq!(nesting_of(doc), 4);
}

#[test]
fn walk_stops_in_a_declaration_that_is_not_closed() {
    assert_eq!(nesting_of(b"<!DOCTYPE x [<a><b><c>"), 0);
    assert_eq!(nesting_of(b"<a><!DOCTYPE x [<!ENTITY e \"]><b><c>"), 1);
    assert_eq!(nesting_of(b"<a><!DOCTYPE x [<!-- ]><b><c>"), 1);
    assert_eq!(nesting_of(b"<a><!DOCTYPE x [ ] <b <c <d"), 1);
}

#[test]
fn walk_stops_at_other_markup_with_a_bang() {
    assert_eq!(nesting_of(b"<a><b><!ELEMENT x><c><d>"), 2);
    assert_eq!(nesting_of(b"<a><!x><b><c><d>"), 1);
    assert_eq!(nesting_of(b"<!><a>"), 0);
}

#[test]
fn each_element_inside_another_counts() {
    assert_eq!(nesting_of("<a>".repeat(64).as_bytes()), 64);
    assert_eq!(nesting_of("<a>".repeat(65).as_bytes()), 65);
    assert_eq!(nesting_of("<a>".repeat(100_000).as_bytes()), 100_000);
}
