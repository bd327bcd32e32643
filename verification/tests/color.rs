use rsfences::config::color::{Color, ColorError, Fill};
use rsfences::config::colorref;
use rsfences::geo::Rect;

fn color_from_json(json: &str) -> Color {
    let text: String = serde_json::from_str(json).unwrap();
    Color::parse(&text).unwrap()
}

fn color_to_json(color: &Color) -> String {
    serde_json::to_string(&color.to_hex_string()).unwrap()
}

#[test]
fn test_rgb_serialize_deserialize() {
    // #RRGGBB => alpha defaults to 0xFF
    let json = "\"#AABBCC\"";
    let color = color_from_json(json);
    assert_eq!(color.r(), 0xAA);
    assert_eq!(color.g(), 0xBB);
    assert_eq!(color.b(), 0xCC);
    assert_eq!(color.a(), 0xFF);

    let serialized = color_to_json(&color);
    assert_eq!(serialized, "\"#FFAABBCC\"");
}

#[test]
fn test_argb_serialize_deserialize() {
    // #AARRGGBB is preserved
    let json = "\"#80AABBCC\"";
    let color = color_from_json(json);
    assert_eq!(color.r(), 0xAA);
    assert_eq!(color.g(), 0xBB);
    assert_eq!(color.b(), 0xCC);
    assert_eq!(color.a(), 0x80);

    let serialized = color_to_json(&color);
    assert_eq!(serialized, json);
}

#[test]
fn test_argb_roundtrip_with_opaque() {
    // six-digit string -> fully opaque alpha
    let json = "\"#336699\"";
    let color = color_from_json(json);
    assert_eq!(color.r(), 0x33);
    assert_eq!(color.g(), 0x66);
    assert_eq!(color.b(), 0x99);
    assert_eq!(color.a(), 0xFF);

    let serialized = color_to_json(&color);
    assert_eq!(serialized, "\"#FF336699\"");
}

#[test]
fn test_accepts_eight_digits() {
    // eight-digit strings are accepted
    let json = "\"#80AABBCC\"";
    let color = color_from_json(json);
    assert_eq!(color.a(), 0x80);
    assert_eq!(color.r(), 0xAA);
    assert_eq!(color.g(), 0xBB);
    assert_eq!(color.b(), 0xCC);
}

#[test]
fn test_rgb_getters_from_u32() {
    // internal representation ARGB: A=0xFF, R=0x11, G=0x22, B=0x33
    let color = Color(0xFF112233);
    assert_eq!(color.r(), 0x11);
    assert_eq!(color.g(), 0x22);
    assert_eq!(color.b(), 0x33);
    assert_eq!(color.a(), 0xFF);
}

#[test]
fn parse_errors_name_the_problem() {
    assert_eq!(Color::parse("AABBCC"), Err(ColorError::MissingHash));
    assert_eq!(Color::parse(""), Err(ColorError::MissingHash));
    assert_eq!(Color::parse("#ABCD"), Err(ColorError::InvalidLength));
    assert_eq!(Color::parse("#AABBCCDDEE"), Err(ColorError::InvalidLength));
    assert_eq!(Color::parse("#GGHHII"), Err(ColorError::InvalidHexDigits));
    assert_eq!(Color::parse("#12345678Z"), Err(ColorError::InvalidLength));
    assert_eq!(ColorError::MissingHash.message(), "missing leading #");
    assert_eq!(ColorError::InvalidHexDigits.message(), "invalid hex digits");
    assert_eq!(ColorError::InvalidLength.message(), "hex color must be 6 or 8 characters");
}

#[test]
fn parse_takes_lower_case_and_a_plus_sign() {
    assert_eq!(Color::parse("#aabbcc"), Ok(Color(0xFFAABBCC)));
    // the digits are read as `u32::from_str_radix` reads them, sign included
    assert_eq!(Color::parse("#+ABCDE"), Ok(Color(0xFF0ABCDE)));
    assert_eq!(Color::parse("#-ABCDE"), Err(ColorError::InvalidHexDigits));
}

#[test]
fn format_then_parse_gives_the_colour_back() {
    for v in [0u32, 0x12345678, 0xFFFFFFFF, 0x00ABCDEF, 0x80000001] {
        let c = Color::from_argb(v);
        assert_eq!(Color::parse(&c.to_hex_string()), Ok(c));
    }
    assert_eq!(Color(0x0A0B0C0D).to_hex_string(), "#0A0B0C0D");
}

#[test]
fn colorref_layouts() {
    let c = Color(0x80AABBCC);
    assert_eq!(c.argb(), 0x80AABBCC);
    assert_eq!(c.bgr(), 0x00CCBBAA);
    assert_eq!(c.abgr(), 0x80CCBBAA);
}

#[test]
fn fill_blends_translucent_colours() {
    let rect = Rect { left: 10, top: 20, right: 110, bottom: 70 };
    assert_eq!(Color(0xFFAABBCC).fill(&rect), Fill::Solid { colorref: 0x00CCBBAA });
    assert_eq!(
        Color(0x40AABBCC).fill(&rect),
        Fill::Blend { colorref: 0x00CCBBAA, alpha: 0x40, width: 100, height: 50 }
    );
    assert_eq!(
        Color(0x00AABBCC).fill(&rect),
        Fill::Blend { colorref: 0x00CCBBAA, alpha: 0, width: 100, height: 50 }
    );
}

#[test]
fn colorref_parse_and_format() {
    let with_alpha = colorref::Color::<true>::parse("#AABBCC").unwrap();
    assert_eq!(with_alpha.0, 0xFFCCBBAA);
    assert_eq!(with_alpha.r(), 0xAA);
    assert_eq!(with_alpha.b(), 0xCC);
    assert_eq!(with_alpha.a(), 0xFF);
    assert_eq!(with_alpha.to_hex_string(), "#FFAABBCC");

    let translucent = colorref::Color::<true>::parse("#80AABBCC").unwrap();
    assert_eq!(translucent.0, 0x80CCBBAA);
    assert_eq!(translucent.to_hex_string(), "#80AABBCC");

    let without_alpha = colorref::Color::<false>::parse("#AABBCC").unwrap();
    assert_eq!(without_alpha.0, 0x00CCBBAA);
    assert_eq!(without_alpha.a(), 0);
    assert_eq!(without_alpha.to_hex_string(), "#AABBCC");

    assert_eq!(colorref::Color::<false>::parse("#80AABBCC"), Err(ColorError::InvalidLength));
    assert_eq!(colorref::Color::<true>::parse("#12"), Err(ColorError::InvalidLength));
    assert_eq!(colorref::Color::<false>::parse("123456"), Err(ColorError::MissingHash));
    assert_eq!(colorref::Color::<true>::parse("#zz0000"), Err(ColorError::InvalidHexDigits));
}

#[test]
fn colorref_reads_back_what_it_writes() {
    let c = colorref::Color::<true>(0x80112233);
    assert_eq!(c.to_hex_string(), "#80332211");
    assert_eq!(colorref::Color::<true>::parse(&c.to_hex_string()), Ok(c));
    let opaque = colorref::Color::<false>(0x00112233);
    assert_eq!(opaque.to_hex_string(), "#332211");
    assert_eq!(colorref::Color::<false>::parse(&opaque.to_hex_string()), Ok(opaque));
    let dropped = colorref::Color::<false>(0x7F112233);
    assert_eq!(colorref::Color::<false>::parse(&dropped.to_hex_string()).unwrap().0, 0x00112233);
}

#[test]
fn colorref_fill_plans() {
    let rect = Rect { left: 0, top: 0, right: 40, bottom: 30 };
    assert_eq!(colorref::Color::<false>(0x80323232).fill(&rect), Fill::Solid { colorref: 0x00323232 });
    assert_eq!(colorref::Color::<true>(0xFF7D7D7D).fill(&rect), Fill::Solid { colorref: 0x007D7D7D });
    assert_eq!(
        colorref::Color::<true>(0x407D7D7D).fill(&rect),
        Fill::Blend { colorref: 0x007D7D7D, alpha: 0x40, width: 40, height: 30 }
    );
    assert_eq!(colorref::Color::<true>(0x00FFAA44).fill(&rect), Fill::Skip);
}

#[test]
fn rgb_packs_a_colorref() {
    assert_eq!(colorref::rgb(0, 0, 33), 0x00210000);
    assert_eq!(colorref::rgb(0x11, 0x22, 0x33), 0x00332211);
}
