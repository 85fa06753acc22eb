use transmission_rss::fetch::{FetchError, HttpResponse};
use transmission_rss::torrent::{Decoded, ResolveError, TorrentItem};

const ANNOUNCE: &str = "http://tracker.example.com/announce";

fn torrent_bytes(name: &str, seed: u8) -> Vec<u8> {
    let mut bytes = format!(
        "d8:announce{}:{}4:infod6:lengthi5e4:name{}:{}12:piece lengthi16384e6:pieces20:",
        ANNOUNCE.len(),
        ANNOUNCE,
        name.len(),
        name
    )
    .into_bytes();
    bytes.push(0xff);
    bytes.extend([seed; 19]);
    bytes.extend(b"ee");
    bytes
}

fn fetched(status: u16, body: Vec<u8>) -> Result<HttpResponse, FetchError> {
    Ok(HttpResponse { status, body })
}

#[test]
fn test_torrent_new() {
    let url = "https://dl.dmhy.org/2022/08/17/d70db7716583224da1684de8fa324822461917aa.torrent";
    let torrent = TorrentItem::new(
        url.to_string(),
        "test".to_string(),
        &fetched(200, torrent_bytes("show-720p.mkv", 1)),
    );
    torrent.unwrap();
}

#[test]
fn test_info_hash() {
    let tor = TorrentItem::new(
        "https://dl.dmhy.org/2022/08/17/d70db7716583224da1684de8fa324822461917aa.torrent"
            .to_string(),
        "test".to_string(),
        &fetched(200, torrent_bytes("show-720p.mkv", 1)),
    )
    .unwrap();
    assert!(tor.info_hash == "ffb7bcf62a9f218bfda82b3df13bde9ba6679134");
}

#[test]
fn resolved_item_has_title_hash_and_magnet_link() {
    let item = TorrentItem::new(
        "http://example.com/1.torrent".to_string(),
        "Show S01E01 720p".to_string(),
        &fetched(200, torrent_bytes("show-720p.mkv", 1)),
    )
    .unwrap();
    assert_eq!(
        item,
        TorrentItem {
            title: "Show S01E01 720p".to_string(),
            info_hash: "ffb7bcf62a9f218bfda82b3df13bde9ba6679134".to_string(),
            magnet_link: "magnet:?xt=urn:btih:ffb7bcf62a9f218bfda82b3df13bde9ba6679134\
&dn=show-720p.mkv&tr=http://tracker.example.com/announce"
                .to_string(),
        }
    );
    assert_eq!(item.copy(), item);
}

#[test]
fn fingerprint_goes_by_the_content() {
    let a = TorrentItem::new(
        "http://example.com/a".to_string(),
        "A".to_string(),
        &fetched(200, torrent_bytes("show-1080p.mkv", 2)),
    )
    .unwrap();
    let b = TorrentItem::new(
        "http://mirror.example.org/b".to_string(),
        "B".to_string(),
        &fetched(200, torrent_bytes("show-1080p.mkv", 2)),
    )
    .unwrap();
    let c = TorrentItem::new(
        "http://example.com/a".to_string(),
        "A".to_string(),
        &fetched(200, torrent_bytes("a.bin", 3)),
    )
    .unwrap();
    assert_eq!(a.info_hash, "67ede0d4416b6ce62bc2d2a690ba58d99e7a7c10");
    assert_eq!(a.info_hash, b.info_hash);
    assert_eq!(c.info_hash, "844ccea35b6a526f8f9b2689dbfb118eb0c0e8a4");
}

#[test]
fn failed_fetch_is_an_error_of_the_item() {
    let url = "http://example.com/1.torrent";
    let r = TorrentItem::new(
        url.to_string(),
        "Show".to_string(),
        &Err(FetchError { url: url.to_string() }),
    );
    assert_eq!(r, Err(ResolveError::Fetch { url: url.to_string() }));
}

#[test]
fn status_other_than_200_is_an_error_of_the_item() {
    let url = "http://example.com/1.torrent";
    for status in [404u16, 500, 204, 301] {
        let r = TorrentItem::new(
            url.to_string(),
            "Show".to_string(),
            &fetched(status, torrent_bytes("show-720p.mkv", 1)),
        );
        assert_eq!(r, Err(ResolveError::Status { url: url.to_string(), status }));
    }
}

#[test]
fn body_that_is_no_torrent_is_an_error_of_the_item() {
    let url = "http://example.com/1.torrent";
    for body in [&b""[..], &b"<html>Not found</html>"[..], &b"d8:announce3:abce"[..]] {
        let r = TorrentItem::new(url.to_string(), "Show".to_string(), &fetched(200, body.to_vec()));
        match r {
            Err(ResolveError::Malformed { reason }) => assert!(!reason.is_empty()),
            other => panic!("{:?}", other),
        }
    }
}

#[test]
fn decoded_values_are_taken_over() {
    let url = "http://example.com/1.torrent";
    let r = TorrentItem::from_decoded(
        url.to_string(),
        "Show".to_string(),
        &fetched(200, Vec::new()),
        Some(Ok(Decoded {
            info_hash: "abc".to_string(),
            magnet_link: Ok("magnet:?xt=urn:btih:abc".to_string()),
        })),
    );
    assert_eq!(
        r,
        Ok(TorrentItem {
            title: "Show".to_string(),
            info_hash: "abc".to_string(),
            magnet_link: "magnet:?xt=urn:btih:abc".to_string(),
        })
    );
    let r = TorrentItem::from_decoded(
        url.to_string(),
        "Show".to_string(),
        &fetched(200, Vec::new()),
        Some(Err("bad bencode".to_string())),
    );
    assert_eq!(r, Err(ResolveError::Malformed { reason: "bad bencode".to_string() }));
    let r =
        TorrentItem::from_decoded(url.to_string(), "Show".to_string(), &fetched(200, Vec::new()), None);
    assert_eq!(r, Err(ResolveError::Malformed { reason: String::new() }));
    let r = TorrentItem::from_decoded(
        url.to_string(),
        "Show".to_string(),
        &fetched(404, Vec::new()),
        Some(Ok(Decoded {
            info_hash: "abc".to_string(),
            magnet_link: Ok("magnet:?xt=urn:btih:abc".to_string()),
        })),
    );
    assert_eq!(r, Err(ResolveError::Status { url: url.to_string(), status: 404 }));
    let r = TorrentItem::from_decoded(
        url.to_string(),
        "Show".to_string(),
        &fetched(200, Vec::new()),
        Some(Ok(Decoded {
            info_hash: "abc".to_string(),
            magnet_link: Err("no link".to_string()),
        })),
    );
    assert_eq!(r, Err(ResolveError::NoMagnetLink { reason: "no link".to_string() }));
}

#[test]
fn torrent_without_a_magnet_link_is_an_error_of_the_item() {
    let mut bytes = format!(
        "d8:announce{}:{}4:infod6:lengthi5e4:name5:a.bin12:piece lengthi16384e6:pieces20:",
        ANNOUNCE.len(),
        ANNOUNCE
    )
    .into_bytes();
    bytes.push(0xff);
    bytes.extend([3u8; 19]);
    bytes.extend(b"e8:url-listi1ee");
    let r = TorrentItem::new(
        "http://example.com/1.torrent".to_string(),
        "Show".to_string(),
        &fetched(200, bytes),
    );
    match r {
        Err(ResolveError::NoMagnetLink { reason }) => assert!(reason.contains("url-list")),
        other => panic!("{:?}", other),
    }
}
