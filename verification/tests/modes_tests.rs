use slime_sim::modes::{ClickMode, ClickModeEncoded, ColorMode, ColorModeEncoded};

#[test]
fn test_click_mode_encoding() {
    for value in 0..u16::MAX as u32 {
        let reference = ClickModeEncoded(value);
        let click_mode = reference.decode();
        let encoded = click_mode.encode();
        match click_mode {
            ClickMode::Disabled => {}
            _ => {
                assert_eq!(reference.0, encoded.0)
            }
        }
    }
}

#[test]
fn test_color_mode_encoding() {
    for value in 0..u16::MAX as u32 {
        let reference = ColorModeEncoded(value);
        let click_mode = reference.decode();
        let encoded = click_mode.encode();
        match click_mode {
            ColorMode::Disabled => {}
            _ => {
                assert_eq!(reference.0, encoded.0)
            }
        }
    }
}

#[test]
fn click_mode_wire_words() {
    assert_eq!(ClickMode::Disabled.encode().0, 0);
    assert_eq!(ClickMode::ShowMenu.encode().0, 1);
    assert_eq!(ClickMode::ResetAllTrails.encode().0, 2);
    assert_eq!(ClickMode::PaintTrail(2).encode().0, 258);
    assert_eq!(ClickMode::ResetTrail(3).encode().0, 515);
    assert_eq!(ClickModeEncoded(258).decode(), ClickMode::PaintTrail(2));
    assert_eq!(ClickModeEncoded(515).decode(), ClickMode::ResetTrail(3));
    assert_eq!(ClickModeEncoded(9999).decode(), ClickMode::Disabled);
}

#[test]
fn color_mode_wire_words() {
    assert_eq!(ColorMode::Add.encode().0, 0);
    assert_eq!(ColorMode::Subtract.encode().0, 1);
    assert_eq!(ColorMode::Multiply.encode().0, 2);
    assert_eq!(ColorMode::Divide.encode().0, 3);
    assert_eq!(ColorMode::Disabled.encode().0, 0xFF);
    assert_eq!(ColorModeEncoded(4).decode(), ColorMode::Disabled);
}

#[test]
fn mode_descriptions() {
    assert_eq!(ClickMode::PaintTrail(1).description(), "Paint trail");
    assert_eq!(ClickMode::ShowMenu.description(), "Show menu");
    assert_eq!(ColorMode::Multiply.description(), "Multiply");
}
