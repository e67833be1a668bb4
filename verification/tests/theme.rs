use dioxus_codemirror::editor_features::EditorFeatures;
use dioxus_codemirror::theme::Theme;
use dioxus_codemirror::theme_color::ThemeColor;
use dioxus_codemirror::theme_colors::ThemeColors;

#[test]
fn theme_attr_names_each_theme() {
    assert_eq!(Theme::Auto.theme_attr(), "auto");
    assert_eq!(Theme::Light.theme_attr(), "light");
    assert_eq!(Theme::Dark.theme_attr(), "dark");
}

#[test]
fn theme_default_is_auto() {
    assert_eq!(Theme::default(), Theme::Auto);
}

#[test]
fn theme_color_constructors() {
    let both = ThemeColor::new("#ffffff", "#0d1117");
    assert_eq!(both.light.as_deref(), Some("#ffffff"));
    assert_eq!(both.dark.as_deref(), Some("#0d1117"));

    let light = ThemeColor::light_only("oklch(92.9% 0.013 255.508)");
    assert_eq!(light.light.as_deref(), Some("oklch(92.9% 0.013 255.508)"));
    assert_eq!(light.dark, None);

    let dark = ThemeColor::dark_only("#0d1117");
    assert_eq!(dark.light, None);
    assert_eq!(dark.dark.as_deref(), Some("#0d1117"));

    let none = ThemeColor::default();
    assert_eq!(none.light, None);
    assert_eq!(none.dark, None);
}

#[test]
fn style_attr_none_without_overrides() {
    assert_eq!(ThemeColors::default().style_attr(), None);
}

#[test]
fn style_attr_declares_overrides_in_palette_order() {
    let theme_colors = ThemeColors {
        bg: ThemeColor::new("#ffffff", "#0d1117"),
        syntax_keyword: ThemeColor::dark_only("#ff7b72"),
        ..Default::default()
    };
    assert_eq!(
        theme_colors.style_attr().as_deref(),
        Some("--dxcm-light-bg: #ffffff; --dxcm-dark-bg: #0d1117; --dxcm-dark-syntax-keyword: #ff7b72;")
    );
}

#[test]
fn style_attr_single_light_override() {
    let theme_colors = ThemeColors {
        selection_match_main: ThemeColor::light_only("rgb(13 17 23)"),
        ..Default::default()
    };
    assert_eq!(
        theme_colors.style_attr().as_deref(),
        Some("--dxcm-light-selection-match-main: rgb(13 17 23);")
    );
}

#[test]
fn style_attr_last_entry() {
    let theme_colors = ThemeColors {
        syntax_invalid: ThemeColor::new("red", "maroon"),
        fg: ThemeColor::dark_only("#e6edf3"),
        ..Default::default()
    };
    assert_eq!(
        theme_colors.style_attr().as_deref(),
        Some("--dxcm-dark-fg: #e6edf3; --dxcm-light-syntax-invalid: red; --dxcm-dark-syntax-invalid: maroon;")
    );
}

#[test]
fn editor_features_builders() {
    let features = EditorFeatures::default()
        .allow_multiple_selections()
        .highlight_selection_matches()
        .tab_size(2);
    assert!(features.allow_multiple_selections);
    assert!(features.highlight_selection_matches);
    assert_eq!(features.tab_size, Some(2));
    assert!(!features.bracket_matching);
    assert!(!features.read_only);

    let all = EditorFeatures::default()
        .highlight_active_line()
        .bracket_matching()
        .close_brackets()
        .rectangular_selection()
        .indent_on_input()
        .highlight_whitespace()
        .line_wrapping()
        .read_only();
    assert!(all.highlight_active_line && all.bracket_matching && all.close_brackets);
    assert!(all.rectangular_selection && all.indent_on_input && all.highlight_whitespace);
    assert!(all.line_wrapping && all.read_only);
    assert!(!all.allow_multiple_selections && !all.highlight_selection_matches);
    assert_eq!(all.tab_size, None);
}

#[test]
fn editor_features_default_all_off() {
    let features = EditorFeatures::default();
    assert_eq!(
        features,
        EditorFeatures {
            allow_multiple_selections: false,
            highlight_selection_matches: false,
            highlight_active_line: false,
            bracket_matching: false,
            close_brackets: false,
            rectangular_selection: false,
            indent_on_input: false,
            highlight_whitespace: false,
            line_wrapping: false,
            read_only: false,
            tab_size: None,
        }
    );
}

#[test]
fn editor_features_builders_commute() {
    let a = EditorFeatures::default().bracket_matching().close_brackets();
    let b = EditorFeatures::default().close_brackets().bracket_matching();
    assert_eq!(a, b);
    assert_eq!(a.bracket_matching().bracket_matching(), a);
}
