use binocular::config::{Color, Config, ConfigColors};

#[test]
fn defaults_stand_where_nothing_is_chosen() {
    let config = Config::default();
    assert_eq!(config.base_color(), Color::LightCyan);
    assert_eq!(config.filepath_color(), Color::LightBlue);
    assert_eq!(config.selection_color(), Color::Yellow);
    let colors = ConfigColors::default();
    assert_eq!(colors.base, None);
    assert_eq!(colors.filepath, None);
    assert_eq!(colors.selection, None);
}

#[test]
fn chosen_colors_replace_the_defaults() {
    let config = Config {
        colors: ConfigColors {
            base: Some(Color::Red),
            filepath: Some(Color::Rgb(1, 2, 3)),
            selection: Some(Color::Indexed(200)),
        },
    };
    assert_eq!(config.base_color(), Color::Red);
    assert_eq!(config.filepath_color(), Color::Rgb(1, 2, 3));
    assert_eq!(config.selection_color(), Color::Indexed(200));
}

#[test]
fn each_color_is_chosen_by_itself() {
    let config = Config {
        colors: ConfigColors { base: None, filepath: Some(Color::Green), selection: None },
    };
    assert_eq!(config.base_color(), Color::LightCyan);
    assert_eq!(config.filepath_color(), Color::Green);
    assert_eq!(config.selection_color(), Color::Yellow);
}
