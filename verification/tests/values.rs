use mjml_render::model::mj_accordion::MjAccordion;
use mjml_render::model::mj_body::MjBody;
use mjml_render::model::mj_column::MjColumn;
use mjml_render::model::mj_divider::MjDividerAttributes;
use mjml_render::model::mj_group::MjGroup;
use mjml_render::model::mj_head::{MjAttribute, MjAttributes, MjFont, MjHead, MjHtmlAttribute,
    MjSelector, MjStyle};
use mjml_render::model::mj_hero::{HeroMode, MjHero, MjHeroAttributes};
use mjml_render::model::mj_image::{MjImage, MjImageAttributes};
use mjml_render::model::mj_navbar::{MjNavbar, MjNavbarLink, MjNavbarLinkAttributes};
use mjml_render::model::mj_section::MjSectionAttributes;
use mjml_render::model::mj_spacer::MjSpacerAttributes;
use mjml_render::model::mj_table::{MjTable, MjTableAttributes};
use mjml_render::model::mj_text::MjTextAttributes;
use mjml_render::model::mjml::{Mjml, MjRawFileStart};
use mjml_render::model::{
    Alignment, BorderProperties, BorderStyle, Color, Decimal, MjBodyColumnComponent, Padding,
    PaddingValue, PxOrEm, PxOrPercent, SizePx, VerticalAlignment,
};

#[test]
fn pixel_lengths_append_px_except_zero() {
    let mut nonzero = String::new();
    MjSpacerAttributes {
        height: Some(SizePx::new(42)),
        ..Default::default()
    }
    .render(&mut nonzero);
    assert_eq!(nonzero, " height=\"42px\"");

    let mut zero = String::new();
    MjSpacerAttributes {
        height: Some(SizePx::new(0)),
        ..Default::default()
    }
    .render(&mut zero);
    assert_eq!(zero, " height=\"0\"");
}

#[test]
fn empty_border_renders_none() {
    let mut out = String::new();
    MjSectionAttributes {
        border: Some(BorderProperties {
            width: None,
            style: None,
            color: None,
        }),
        ..Default::default()
    }
    .render(&mut out);
    assert_eq!(out, " border=\"none\"");
}

#[test]
fn full_border_renders_style_width_color_unseparated() {
    let mut out = String::new();
    MjSectionAttributes {
        border: Some(BorderProperties {
            width: Some(SizePx::new(2)),
            style: Some(BorderStyle::Solid),
            color: Some(Color::rgb(0xFF, 0x00, 0x00)),
        }),
        ..Default::default()
    }
    .render(&mut out);
    assert_eq!(out, " border=\"solid2px#FF0000\"");
}

#[test]
fn boolean_flag_absent_when_false_and_key_valued_when_true() {
    let mut with_flag = String::new();
    MjSectionAttributes {
        full_width: true,
        ..Default::default()
    }
    .render(&mut with_flag);
    assert_eq!(with_flag, " full-width=\"full-width\"");

    let mut without_flag = String::new();
    MjSectionAttributes {
        full_width: false,
        ..Default::default()
    }
    .render(&mut without_flag);
    assert_eq!(without_flag, "");
}

#[test]
fn color_text_matches_hex_color_display() {
    let ours = Color::rgb(0xDC, 0x1A, 0x05);
    let theirs = hex_color::HexColor {
        r: 0xDC,
        g: 0x1A,
        b: 0x05,
        a: 255,
    };
    let mut out = String::new();
    MjTextAttributes {
        color: Some(ours),
        ..Default::default()
    }
    .render(&mut out);
    assert_eq!(out, format!(" color=\"{}\"", theirs));
}

#[test]
fn em_and_list_values_render_canonically() {
    let mut out = String::new();
    MjTextAttributes {
        letter_spacing: Some(PxOrEm::Em(Decimal {
            whole: 2,
            frac: 5,
            frac_digits: 1,
        })),
        font_family: vec!["Helvetica".to_string(), "Arial".to_string()],
        css_class: vec!["one".to_string(), "two".to_string()],
        ..Default::default()
    }
    .render(&mut out);
    assert_eq!(
        out,
        " font-family=\"Helvetica, Arial\" letter-spacing=\"2.5em\" css-class=\"one, two\""
    );
}

#[test]
fn padding_box_renders_all_four_sides() {
    let mut out = String::new();
    MjDividerAttributes {
        padding: Some(Padding {
            top: PaddingValue::Px(SizePx::new(1)),
            right: PaddingValue::Px(SizePx::new(2)),
            bottom: PaddingValue::Inherit,
            left: PaddingValue::Px(SizePx::new(0)),
        }),
        ..Default::default()
    }
    .render(&mut out);
    assert_eq!(
        out,
        " padding-bottom=\"inherit\" padding-top=\"1px\" padding-left=\"0\" padding-right=\"2px\""
    );
}

#[test]
fn navbar_renders_its_own_tag_with_links_nested() {
    let navbar = MjNavbar {
        links: vec![MjNavbarLink {
            content: "Home".to_string(),
            attributes: MjNavbarLinkAttributes {
                href: Some("/home".to_string()),
                ..Default::default()
            },
        }],
        attributes: Default::default(),
    };
    let mut out = String::new();
    navbar.render(&mut out, 0);
    let expected = "<mj-navbar>\n\t<mj-navbar-link href=\"/home\">\n\t\tHome\n\t</mj-navbar-link>\n</mj-navbar>\n";
    assert_eq!(out, expected);
}

#[test]
fn head_renders_settings_in_fixed_order() {
    let head = MjHead {
        mj_attributes: Some(MjAttributes {
            content: vec![
                MjAttribute::MjAll(vec![("font-size".to_string(), "10px".to_string())]),
                MjAttribute::MjText(MjTextAttributes {
                    color: Some(Color::rgb(0, 0, 0)),
                    ..Default::default()
                }),
            ],
        }),
        mj_breakpoint: Some(SizePx::new(480)),
        mj_font: vec![MjFont {
            name: "Raleway".to_string(),
            href: "https://fonts.example/raleway".to_string(),
        }],
        mj_html_attributes: vec![MjSelector {
            path: ".blue *".to_string(),
            mj_html_attributes: vec![MjHtmlAttribute {
                name: "data-shade".to_string(),
                value: "blue".to_string(),
            }],
        }],
        mj_preview: Some("peek".to_string()),
        mj_style: Some(MjStyle {
            inline: true,
            content: ".blue { color: blue; }".to_string(),
        }),
        mj_title: Some("Greetings".to_string()),
    };
    let mut out = String::new();
    head.render(&mut out, 0);
    let expected = "<mj-head>\n\t<mj-attributes>\n\t\t<mj-all font-size=\"10px\"/>\n\t\t<mj-text color=\"#000000\"/>\n\t</mj-attributes>\n\t<mj-breakpoint width=\"480px\" />\n\t<mj-font name=\"Raleway\"  href=\"https://fonts.example/raleway\" />\n\t<mj-html-attributes>\n\t\t<mj-selector path=\".blue *\">\n\t\t\t<mj-html-attribute name=\"data-shade\">blue</mj-html-attribute>\n\t\t</mj-selector>\n\t</mj-html-attributes>\n\t<mj-preview>peek</mj-preview>\n\t<mj-style inline=\"inline\">\n\t\t.blue { color: blue; }\n\t</mj-style>\n\t<mj-title>Greetings</mj-title>\n</mj-head>\n";
    assert_eq!(out, expected);
}

#[test]
fn image_is_self_closing_and_always_carries_src() {
    let image = MjImage {
        attributes: MjImageAttributes {
            src: "https://img.example/a.png".to_string(),
            fluid_on_mobile: Some(true),
            width: Some(SizePx::new(4294967295)),
            ..Default::default()
        },
    };
    let mut out = String::new();
    image.render(&mut out, 2);
    assert_eq!(
        out,
        "\t\t<mj-image fluid-on-mobile=\"true\" src=\"https://img.example/a.png\" width=\"4294967295px\"/>\n"
    );
}

#[test]
fn empty_accordion_renders_open_and_close_only() {
    let accordion = MjAccordion {
        elements: vec![],
        attributes: Default::default(),
    };
    let mut out = String::new();
    accordion.render(&mut out, 1);
    assert_eq!(out, "\t<mj-accordion>\n\t</mj-accordion>\n");
}

#[test]
fn table_presentation_role_and_percent_width() {
    let table = MjTable {
        content: "<tr><td>x</td></tr>".to_string(),
        attributes: MjTableAttributes {
            presentation_role: true,
            width: Some(PxOrPercent::Percent(Decimal {
                whole: 33,
                frac: 3,
                frac_digits: 1,
            })),
            ..Default::default()
        },
    };
    let mut out = String::new();
    table.render(&mut out, 0);
    assert_eq!(
        out,
        "<mj-table role=\"presentation\" width=\"33.3%\">\n\t<tr><td>x</td></tr>\n</mj-table>\n"
    );
}

#[test]
fn raw_file_start_renders_before_everything_else() {
    let doc = Mjml {
        mj_raw_file_start: Some(MjRawFileStart {
            content: "<!-- preamble -->".to_string(),
        }),
        mj_body: MjBody {
            content: vec![],
            attributes: Default::default(),
        },
        mj_head: None,
        attributes: Default::default(),
    };
    let rendered = doc.render_to_string();
    assert_eq!(
        rendered,
        "<mjml>\n\t<mj-raw position=\"file-start\">\n\t\t<!-- preamble -->\n\t</mj-raw>\n\t<mj-body width=\"600px\">\n\t</mj-body>\n</mjml>\n"
    );
}

#[test]
fn group_nests_columns_like_a_section_does() {
    let group = MjGroup {
        columns: vec![MjColumn {
            content: vec![],
            attributes: Default::default(),
        }
        .to_column()],
        attributes: Default::default(),
    };
    let mut out = String::new();
    group.render(&mut out, 0);
    assert_eq!(out, "<mj-group>\n\t<mj-column>\n\t</mj-column>\n</mj-group>\n");
}

#[test]
fn fluid_height_mode_renders_without_height() {
    let hero = MjHero {
        content: vec![],
        attributes: MjHeroAttributes {
            background_height: SizePx::new(0),
            background_width: SizePx::new(600),
            background_color: Color::rgb(0xAB, 0xCD, 0xEF),
            background_url: None,
            background_position: Some((Alignment::Left, VerticalAlignment::Top)),
            border_radius: None,
            mode: Some(HeroMode::FluidHeight),
            padding: None,
            vertical_align: None,
        },
    };
    let mut out = String::new();
    hero.render(&mut out, 0);
    assert_eq!(
        out,
        "<mj-hero background-height=\"0\" background-width=\"600px\" background-color=\"#ABCDEF\" background-position=\"left top\" mode=\"fluid-height\">\n</mj-hero>\n"
    );
}
