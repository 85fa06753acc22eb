use lava_torrent::bencode::BencodeElem;
use quick_xml::events::Event;
use transmission_rss::{bencode, markup, text};

/// A small generator of numbers that look random and are the same in every
/// run.
struct Numbers(u64);

impl Numbers {
    fn next(&mut self, below: usize) -> usize {
        self.0 = self.0.wrapping_mul(6364136223846793005).wrapping_add(1442695040888963407);
        ((self.0 >> 33) as usize) % below
    }

    fn pieces(&mut self, parts: &[&str], most: usize) -> Vec<u8> {
        let mut bytes = Vec::new();
        for _ in 0..self.next(most + 1) {
            bytes.extend(parts[self.next(parts.len())].as_bytes());
        }
        bytes
    }
}

fn depth_of(element: &BencodeElem) -> usize {
    match element {
        BencodeElem::List(list) => 1 + list.iter().map(depth_of).max().unwrap_or(0),
        BencodeElem::Dictionary(dict) => 1 + dict.values().map(depth_of).max().unwrap_or(0),
        BencodeElem::RawDictionary(dict) => 1 + dict.values().map(depth_of).max().unwrap_or(0),
        _ => 0,
    }
}

/// How deep a tokenizer gets into `doc` before it ends or fails.
fn depth_reached(doc: &[u8]) -> usize {
    tokenize(doc).0
}

/// How deep a tokenizer gets into `doc`, and whether it gets to the end.
fn tokenize(doc: &[u8]) -> (usize, bool) {
    let mut reader = quick_xml::Reader::from_reader(doc);
    reader.config_mut().expand_empty_elements = true;
    let mut buf = Vec::new();
    let mut depth: usize = 0;
    let mut peak: usize = 0;
    loop {
        match reader.read_event_into(&mut buf) {
            Ok(Event::Start(_)) => {
                depth += 1;
                peak = peak.max(depth);
            }
            Ok(Event::End(_)) => depth = depth.saturating_sub(1),
            Ok(Event::Eof) => return (peak, true),
            Err(_) => return (peak, false),
            Ok(_) => {}
        }
        buf.clear();
    }
}

#[test]
fn nesting_of_lists_that_read_is_their_depth() {
    let parts = [
        "l", "l", "l", "e", "e", "e", "i1e", "i-5e", "3:abc", "1:l", "1:d", "1:e", "0:", "2:ee",
        "+1:l", "1:a", "1:b", "4:lede",
    ];
    let mut numbers = Numbers(1);
    let mut read = 0;
    for _ in 0..200_000 {
        let bytes = numbers.pieces(&parts, 12);
        if let Ok(elements) = BencodeElem::from_bytes(&bytes) {
            let depth = elements.iter().map(depth_of).max().unwrap_or(0);
            assert_eq!(bencode::nesting_of(&bytes), depth, "{:?}", String::from_utf8_lossy(&bytes));
            read += 1;
        }
    }
    assert!(read > 1000);
}

#[test]
fn nesting_of_bencode_is_no_less_than_the_depth_of_what_reads() {
    let parts = [
        "l", "d", "d1:a", "e", "e", "e", "3:abc", "i1e", "le", "de", "1:l", "1:a", "1:b", "1:c",
        "+1:d", "i", ":", "9:",
    ];
    let mut numbers = Numbers(2);
    let mut read = 0;
    for _ in 0..200_000 {
        let bytes = numbers.pieces(&parts, 16);
        if let Ok(elements) = BencodeElem::from_bytes(&bytes) {
            let depth = elements.iter().map(depth_of).max().unwrap_or(0);
            assert!(bencode::nesting_of(&bytes) >= depth, "{:?}", String::from_utf8_lossy(&bytes));
            if depth >= 2 {
                read += 1;
            }
        }
    }
    assert!(read > 100);
}

#[test]
fn nesting_of_markup_is_no_less_than_a_tokenizer_gets() {
    let parts = [
        "<a>", "<a>", "</a>", "</a>", "<b/>", "<c x='1'>", "<c y=\"2\">", "</c>", "<!--", "-->",
        "<![CDATA[", "]]>", "<?", "?>", "<?xml version=\"1.0\"?>", "'", "\"", ">", "<", "/", "!",
        "-", "--", "]", "]]", "[", "?", " ", "text", "&amp;", "&", ";", "<!DOCTYPE x>", "<!d",
        "<!DOCTYPE", "<!D", "<!doctype x SYSTEM \"", "<!DOCTYPE x [", "<!ENTITY a 'b'>", "<!x",
        "<!DOCTYPE x [", "]>", "<!ENTITY a \"]>\">", "<!ELEMENT a (b)>", "<!ELEMENT", "<!ENTITY",
        "<!ATTLIST a b CDATA '>'>", "<!ATTLIST", "<!NOTATION n SYSTEM \">\">", "<!NOTATION",
        "<?p ?>", "<?>", "<!-- ] -->", "<!FOO>", "<!--",
        "<d:e>", "</d:e>", "<>", "</>", "<a", " x=", "=", "a",
    ];
    let mut numbers = Numbers(3);
    for _ in 0..100_000 {
        let doc = numbers.pieces(&parts, 24);
        assert!(
            markup::nesting_of(&doc) >= depth_reached(&doc),
            "{:?}",
            String::from_utf8_lossy(&doc)
        );
    }
}

#[test]
fn nesting_of_markup_that_tokenizes_is_what_a_tokenizer_gets() {
    let parts = [
        "<a>", "</a>", "<b/>", "<c x='>'>", "</c>", "<!-- <a> -->", "<![CDATA[<a></a>]]>",
        "<?pi <a> ?>", "text", "&amp;", "<d:e f=\"</d:e>\">", "</d:e>", "<!DOCTYPE x>",
        "<!DOCTYPE x SYSTEM \"<a>\" '>'>", "<!doctype>",
        "<!DOCTYPE x [<!ENTITY a \"]><a>\"><!-- ] <a> --><?p <a> ?><!ELEMENT a (b)>]>",
        "<!DOCTYPE x [<!ATTLIST a b CDATA '>'><!NOTATION n SYSTEM \"]\"><!FOO a>] >",
    ];
    let mut numbers = Numbers(4);
    let mut deep = 0;
    for _ in 0..100_000 {
        let doc = numbers.pieces(&parts, 24);
        let (reached, to_the_end) = tokenize(&doc);
        let measured = markup::nesting_of(&doc);
        assert!(measured >= reached, "{:?}", String::from_utf8_lossy(&doc));
        if to_the_end {
            assert_eq!(measured, reached, "{:?}", String::from_utf8_lossy(&doc));
            if reached >= 3 {
                deep += 1;
            }
        }
    }
    assert!(deep > 100);
}

#[test]
fn trim_and_contains_agree_with_the_standard_library() {
    let parts = [
        " ", "\t", "\n", "\r", "\u{a0}", "\u{3000}", "\u{2028}", "\u{85}", "a", "b", "ab", "é",
        "日本", "\u{200b}", "720p", "-",
    ];
    let mut numbers = Numbers(5);
    for _ in 0..20_000 {
        let hay = String::from_utf8(numbers.pieces(&parts, 8)).unwrap();
        let needle = String::from_utf8(numbers.pieces(&parts, 3)).unwrap();
        assert_eq!(text::trim(&hay), hay.trim(), "{:?}", hay);
        assert_eq!(text::contains(&hay, &needle), hay.contains(&needle), "{:?} {:?}", hay, needle);
        assert_eq!(text::same_text(&hay, &needle), hay == needle);
        assert_eq!(text::chars_of(&hay), hay.chars().collect::<Vec<char>>());
    }
}

#[test]
fn nesting_of_document_type_declarations_is_no_less_than_a_tokenizer_gets() {
    let parts = [
        "<!DOCTYPE x [", "<!DOCTYPE x ", "]", "]>", ">", "<", "'", "\"", "[", "<a>", "</a>",
        "<b/>", "<!ENTITY a 'b'>", "<!ENTITY ", "<!ELEMENT a (b)>", "<!ELEMENT ", "<!ATTLIST ",
        "<!NOTATION ", "<!NOTATIO", "<!ELEMEN", "<!--", "-->", "--", "-", "<?", "?>", "?", "<!",
        "<!FOO", " ", "x", "<![CDATA[", "]]>",
    ];
    let mut numbers = Numbers(6);
    let mut passed = 0;
    for _ in 0..200_000 {
        let mut doc = b"<a><!DOCTYPE x [".to_vec();
        doc.extend(numbers.pieces(&parts, 12));
        doc.extend(b"<a><b><c>");
        let (reached, to_the_end) = tokenize(&doc);
        let measured = markup::nesting_of(&doc);
        assert!(measured >= reached, "{:?}", String::from_utf8_lossy(&doc));
        if to_the_end {
            assert_eq!(measured, reached, "{:?}", String::from_utf8_lossy(&doc));
            if reached >= 3 {
                passed += 1;
            }
        }
    }
    assert!(passed > 1000);
}
