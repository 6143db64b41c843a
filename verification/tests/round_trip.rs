use quote::ToTokens;
use src_embed::src_embed;

fn tokens_of(item: &syn::Item) -> String {
    item.to_token_stream().to_string()
}

fn check_round_trip(input: &str, name: &str) {
    let unit = src_embed("", input).unwrap();
    assert_eq!(unit.constant().value(), input);

    let file = syn::parse_file(&unit.to_source()).unwrap();
    assert_eq!(file.items.len(), 2, "{}", input);

    match &file.items[0] {
        syn::Item::Const(constant) => {
            assert_eq!(constant.ident.to_string(), name);
            assert!(matches!(constant.vis, syn::Visibility::Public(_)));
            assert_eq!(constant.ty.to_token_stream().to_string(), "& str");
            assert_eq!(constant.attrs.len(), 1);
            assert_eq!(constant.attrs[0].to_token_stream().to_string(), "# [doc (hidden)]");
            match &*constant.expr {
                syn::Expr::Lit(syn::ExprLit { lit: syn::Lit::Str(literal), .. }) => {
                    assert_eq!(literal.value(), input);
                }
                _ => panic!("the constant's value is no string literal"),
            }
        }
        _ => panic!("the first item is no constant"),
    }

    let reparsed = syn::parse_str::<syn::Item>(input).unwrap();
    assert_eq!(tokens_of(&file.items[1]), tokens_of(&reparsed));
    assert_eq!(unit.declaration(), tokens_of(&reparsed));
}

#[test]
fn output_parses_as_constant_then_declaration() {
    check_round_trip("pub struct Foo { pub x: u32 }", "__FOO_SOURCE__");
    check_round_trip("pub fn example() -> &'static str { \"hi\" }", "__EXAMPLE_SOURCE__");
    check_round_trip("impl module::Widget { fn size(&self) -> usize { 0 } }", "__WIDGET_SOURCE__");
    check_round_trip("impl Shape for (u32, u32) {}", "__UNKNOWN_SOURCE__");
    check_round_trip("pub const LIMIT: usize = 16;", "__ITEM_SOURCE__");
    check_round_trip("enum Colour { Red, Green }", "__COLOUR_SOURCE__");
    check_round_trip("pub trait Draw { fn draw(&self); }", "__DRAW_SOURCE__");
}

#[test]
fn value_keeps_documentation_and_attributes() {
    let input = "/// A point.\n///\n/// With two lines.\n#[derive(Debug, Clone)]\n#[repr(C)]\npub struct Point {\n    /// The abscissa.\n    pub x: i32,\n}";
    check_round_trip(input, "__POINT_SOURCE__");
    let unit = src_embed("", input).unwrap();
    assert_eq!(unit.constant().value(), input);
    assert_eq!(
        unit.declaration(),
        "# [doc = \" A point.\"] # [doc = \"\"] # [doc = \" With two lines.\"] # [derive (Debug , Clone)] # [repr (C)] pub struct Point { # [doc = \" The abscissa.\"] pub x : i32 , }"
    );
}

#[test]
fn value_keeps_whitespace_and_comments() {
    let input = "  // leading comment\n\tfn   spaced ( )   { /* inner */ }  \n\n";
    check_round_trip(input, "__SPACED_SOURCE__");
    let unit = src_embed("", input).unwrap();
    assert_eq!(unit.constant().value(), input);
    assert_eq!(unit.declaration(), "fn spaced () { }");
}

#[test]
fn value_with_quotes_backslashes_and_controls() {
    let input = "fn text() -> &'static str { \"quote \\\" backslash \\\\ newline \\n tab \\t nul \\0\" }";
    check_round_trip(input, "__TEXT_SOURCE__");
    let input = "fn text() -> char { '\\'' }";
    check_round_trip(input, "__TEXT_SOURCE__");
    let input = "fn raw() -> &'static str {\r\n\tr#\"a \"raw\" one\"#\r\n}";
    check_round_trip(input, "__RAW_SOURCE__");
}

#[test]
fn value_with_characters_outside_ascii() {
    let input = "/// Größe in µm — «exakt»\nstruct Größe { wert: f64 } // ✓ 日本語";
    check_round_trip(input, "__GRÖSSE_SOURCE__");
}

#[test]
fn declaration_is_independent_of_the_constant() {
    let plain = src_embed("", "struct Foo;").unwrap();
    let spaced = src_embed("", "struct   Foo   ;").unwrap();
    assert_eq!(plain.declaration(), spaced.declaration());
    assert_ne!(plain.constant().value(), spaced.constant().value());
    assert_eq!(plain.constant().name(), spaced.constant().name());
    assert!(plain.to_source().ends_with(plain.declaration()));
    assert!(spaced.to_source().ends_with(spaced.declaration()));
}
