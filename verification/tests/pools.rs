use bitcoin_dashboard::pools::{pool_for_text, pool_name_from_coinbase};

fn hex_of(bytes: &[u8]) -> String {
    bytes.iter().map(|b| format!("{:02x}", b)).collect()
}

#[test]
fn each_tag_names_its_pool() {
    let cases = [
        ("xxAntPoolxx", "AntPool"),
        ("/F2Pool/", "F2Pool"),
        ("Mined by ViaBTC", "ViaBTC"),
        ("Foundry USA Pool #dropgold", "Foundry USA"),
        ("slush", "SlushPool"),
        ("Binance/123", "Binance Pool"),
        ("BTC.com/", "BTC.com"),
        ("Poolin", "Poolin"),
        ("Luxor Tech", "Luxor"),
        ("MARA Made in USA", "MARA Pool"),
        ("SpiderPool/", "SpiderPool"),
        ("BitFury", "BitFury"),
        ("/ocean/ DATUM", "Ocean"),
        ("SBI Crypto", "SBI Crypto"),
    ];
    for (text, pool) in cases {
        assert_eq!(pool_for_text(text), pool, "text {:?}", text);
    }
}

#[test]
fn earlier_table_entry_wins() {
    assert_eq!(pool_for_text("F2Pool and AntPool"), "AntPool");
    assert_eq!(pool_for_text("SBI via ViaBTC"), "ViaBTC");
}

#[test]
fn untagged_text_is_unknown() {
    assert_eq!(pool_for_text(""), "Solo/Unknown");
    assert_eq!(pool_for_text("antpool"), "Solo/Unknown");
    assert_eq!(pool_for_text("/Ocean/"), "Solo/Unknown");
    assert_eq!(pool_for_text("Foundr"), "Solo/Unknown");
}

#[test]
fn foundry_needs_its_full_tag() {
    assert_eq!(pool_for_text("/Foundry/"), "Solo/Unknown");
    assert_eq!(pool_for_text("Foundry USA"), "Foundry USA");
    assert_eq!(pool_name_from_coinbase("2f466f756e6472792f").as_deref(), Some("Solo/Unknown"));
}

#[test]
fn tag_at_the_very_end_is_found() {
    assert_eq!(pool_for_text("\u{fffd}\u{fffd}SBI"), "SBI Crypto");
}

#[test]
fn coinbase_hex_is_decoded_before_matching() {
    // "AntPool" in hex: the raw hex text does not contain the tag itself
    assert_eq!(pool_name_from_coinbase("416e74506f6f6c").as_deref(), Some("AntPool"));
    let cb = hex_of(b"\x03\x8a\x1b\x0c/F2Pool/Mined by x");
    assert_eq!(pool_name_from_coinbase(&cb).as_deref(), Some("F2Pool"));
}

#[test]
fn uppercase_hex_is_accepted() {
    assert_eq!(pool_name_from_coinbase("2F6F6365616E2F").as_deref(), Some("Ocean"));
}

#[test]
fn regtest_coinbase_is_solo_unknown() {
    assert_eq!(pool_name_from_coinbase("510101").as_deref(), Some("Solo/Unknown"));
    assert_eq!(pool_name_from_coinbase("").as_deref(), Some("Solo/Unknown"));
}

#[test]
fn invalid_utf8_is_replaced_not_rejected() {
    let cb = hex_of(b"\xff\xfe\x80ViaBTC\xc3");
    assert_eq!(pool_name_from_coinbase(&cb).as_deref(), Some("ViaBTC"));
}

#[test]
fn invalid_hex_gives_none() {
    assert_eq!(pool_name_from_coinbase("zz"), None);
    assert_eq!(pool_name_from_coinbase("abc"), None);
    assert_eq!(pool_name_from_coinbase("416e74506f6f6"), None);
    assert_eq!(pool_name_from_coinbase("41 6e"), None);
    assert_eq!(pool_name_from_coinbase("é1"), None);
}
