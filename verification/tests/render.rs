use mjml_render::model::mj_accordion::{
    MjAccordion, MjAccordionElement, MjAccordionElementText, MjAccordionElementTitle,
};
use mjml_render::model::mj_body::{MjBody, MjBodyAttributes};
use mjml_render::model::mj_column::MjColumn;
use mjml_render::model::mj_hero::{HeroMode, MjHero, MjHeroAttributes};
use mjml_render::model::mj_section::MjSection;
use mjml_render::model::mj_text::MjText;
use mjml_render::model::mj_wrapper::MjWrapper;
use mjml_render::model::mjml::Mjml;
use mjml_render::model::{Color, MjBodyComponent, MjBodyColumnComponent, MjBodySectionComponent};
use mjml_render::model::SectionCompatible;
use mjml_render::model::SizePx;

#[test]
fn basic_test() {
    let mjml = Mjml {
        mj_raw_file_start: None,
        mj_body: MjBody {
            content: vec![
                MjSection {
                    attributes: Default::default(),
                    content: vec![
                        MjColumn {
                            content: vec![
                                MjAccordion {
                                    elements: vec![
                                        MjAccordionElement {
                                            title: MjAccordionElementTitle {
                                                content: "Why use an accordion?".to_string(),
                                                attributes: Default::default(),
                                            },
                                            text: MjAccordionElementText {
                                                content: "<span style=\"line-height:20px\">Because emails with a lot of content are most of the time a very bad experience on mobile, mj-accordion comes handy when you want to deliver a lot of information in a concise way.</span>".to_string(),
                                                attributes: Default::default(),
                                            },
                                            attributes: Default::default(),
                                        },
                                        MjAccordionElement {
                                            title: MjAccordionElementTitle {
                                                content: "How it works".to_string(),
                                                attributes: Default::default(),
                                            },
                                            text: MjAccordionElementText {
                                                content: "<span style=\"line-height:20px\">Content is stacked into tabs and users can expand them at will. If responsive styles are not supported (mostly on desktop clients), tabs are then expanded and your content is readable at once.</span>".to_string(),
                                                attributes: Default::default(),
                                            },
                                            attributes: Default::default(),
                                        },
                                    ],
                                    attributes: Default::default(),
                                }
                                .to_base_component(),
                            ],
                            attributes: Default::default(),
                        }
                        .to_column(),
                    ],
                }
                .to_section(),
            ],
            attributes: MjBodyAttributes {
                background_color: None,
                width: SizePx::new(600),
                css_class: vec!["test_body".to_string()],
            },
        },
        mj_head: None,
        attributes: Default::default(),
    };

    let rendered = mjml.render_to_string();

    let expected = "<mjml>\n\t<mj-body css-class=\"test_body\" width=\"600px\">\n\t\t<mj-section>\n\t\t\t<mj-column>\n\t\t\t\t<mj-accordion>\n\t\t\t\t\t<mj-accordion-element>\n\t\t\t\t\t\t<mj-accordion-title>\n\t\t\t\t\t\t\tWhy use an accordion?\n\t\t\t\t\t\t</mj-accordion-title>\n\t\t\t\t\t\t<mj-accordion-text>\n\t\t\t\t\t\t\t<span style=\"line-height:20px\">Because emails with a lot of content are most of the time a very bad experience on mobile, mj-accordion comes handy when you want to deliver a lot of information in a concise way.</span>\n\t\t\t\t\t\t</mj-accordion-text>\n\t\t\t\t\t</mj-accordion-element>\n\t\t\t\t\t<mj-accordion-element>\n\t\t\t\t\t\t<mj-accordion-title>\n\t\t\t\t\t\t\tHow it works\n\t\t\t\t\t\t</mj-accordion-title>\n\t\t\t\t\t\t<mj-accordion-text>\n\t\t\t\t\t\t\t<span style=\"line-height:20px\">Content is stacked into tabs and users can expand them at will. If responsive styles are not supported (mostly on desktop clients), tabs are then expanded and your content is readable at once.</span>\n\t\t\t\t\t\t</mj-accordion-text>\n\t\t\t\t\t</mj-accordion-element>\n\t\t\t\t</mj-accordion>\n\t\t\t</mj-column>\n\t\t</mj-section>\n\t</mj-body>\n</mjml>\n";
    assert_eq!(rendered, expected);
}

fn hello_document() -> Mjml {
    Mjml {
        mj_raw_file_start: None,
        mj_body: MjBody {
            content: vec![
                MjSection {
                    attributes: Default::default(),
                    content: vec![
                        MjColumn {
                            content: vec![
                                MjText {
                                    content: "Hello".to_string(),
                                    attributes: Default::default(),
                                }
                                .to_base_component(),
                            ],
                            attributes: Default::default(),
                        }
                        .to_column(),
                    ],
                }
                .to_section(),
            ],
            attributes: Default::default(),
        },
        mj_head: None,
        attributes: Default::default(),
    }
}

#[test]
fn hello_nested_structure() {
    let rendered = hello_document().render_to_string();
    let expected = "<mjml>\n\t<mj-body width=\"600px\">\n\t\t<mj-section>\n\t\t\t<mj-column>\n\t\t\t\t<mj-text>\n\t\t\t\t\tHello\n\t\t\t\t</mj-text>\n\t\t\t</mj-column>\n\t\t</mj-section>\n\t</mj-body>\n</mjml>\n";
    assert_eq!(rendered, expected);
}

#[test]
fn render_twice_is_byte_identical() {
    let doc = hello_document();
    let mut first = String::new();
    let mut second = String::new();
    doc.render(&mut first);
    doc.render(&mut second);
    assert_eq!(first, second);
    assert_eq!(first, doc.render_to_string());
}

#[test]
fn hero_fixed_height_renders_mode_then_height() {
    let hero = MjHero {
        content: vec![],
        attributes: MjHeroAttributes {
            background_height: SizePx::new(100),
            background_width: SizePx::new(200),
            background_color: Color::rgb(0x11, 0x22, 0x33),
            background_url: None,
            background_position: None,
            border_radius: None,
            mode: Some(HeroMode::FixedHeight(SizePx::new(300))),
            padding: None,
            vertical_align: None,
        },
    };
    let mut out = String::new();
    hero.render(&mut out, 0);
    let expected = "<mj-hero background-height=\"100px\" background-width=\"200px\" background-color=\"#112233\" mode=\"fixed-height\" height=\"300px\">\n</mj-hero>\n";
    assert_eq!(out, expected);
}

#[test]
fn section_slot_takes_each_permitted_kind() {
    let section: SectionCompatible = MjSection {
        attributes: Default::default(),
        content: vec![],
    }
    .to_section();
    let wrapper: SectionCompatible = MjWrapper {
        attributes: Default::default(),
        content: vec![],
    }
    .to_section();
    let hero: SectionCompatible = MjHero {
        content: vec![],
        attributes: MjHeroAttributes {
            background_height: SizePx::new(1),
            background_width: SizePx::new(1),
            background_color: Color::rgb(0, 0, 0),
            background_url: None,
            background_position: None,
            border_radius: None,
            mode: None,
            padding: None,
            vertical_align: None,
        },
    }
    .to_section();

    assert!(matches!(section, SectionCompatible::Section(_)));
    assert!(matches!(wrapper, SectionCompatible::Wrapper(_)));
    assert!(matches!(hero, SectionCompatible::Hero(_)));
}
