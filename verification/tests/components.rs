use flarecord::models::components::content::text_display::TextDisplay;
use flarecord::models::components::content::thumbnail::Thumbnail;
use flarecord::models::components::id::ComponentIdGenerator;
use flarecord::models::components::interactive::button::Button;
use flarecord::models::components::interactive::select::Select;
use flarecord::models::components::interactive::text_input::{TextInput, TextStyle};
use flarecord::models::components::layout::action_row::{ActionRow, ActionRowChild, IntoActionRow};
use flarecord::models::components::layout::container::Container;
use flarecord::models::components::layout::section::{Section, SectionAccessory, SectionComponent};
use flarecord::models::components::layout::separator::Separator;
use flarecord::models::components::layout::{LayoutComponent, RootComponent};
use flarecord::models::components::LayoutComponentHandler;

fn button(id: &str) -> Button {
    Button::new(id.to_string())
}

#[test]
fn ids_use_the_charset() {
    let gen = ComponentIdGenerator::new();
    for _ in 0..50 {
        let id = gen.next();
        assert_eq!(id.chars().count(), 4);
        assert!(id.chars().all(|c| c.is_ascii_alphanumeric()));
        let n = gen.next_i32();
        assert!((0..256).contains(&n));
    }
}

#[test]
fn action_row_of_five_buttons() {
    let row = ActionRow::new()
        .button(button("a"))
        .button(button("b"))
        .button(button("c"))
        .button(button("d"))
        .button(button("e"))
        .build();
    let children = row.get_children();
    assert_eq!(children.len(), 5);
    let ids: Vec<String> = children.iter().map(|c| c.get_id()).collect();
    assert_eq!(ids, vec!["a", "b", "c", "d", "e"]);
    assert!(matches!(row, ActionRow::Has5(_)));
    assert!((0..256).contains(&row.get_id()));
}

#[test]
fn action_row_with_a_select() {
    let state = ActionRow::new();
    let id = state.get_id();
    let row = state.select(Select::new("pick".to_string())).build();
    assert!(matches!(row, ActionRow::HasSelect(_)));
    assert_eq!(row.get_children().len(), 1);
    assert!(matches!(&row.get_children()[0], ActionRowChild::Select(s) if s.custom_id == "pick"));
    assert_eq!(row.get_id(), id);
    let empty = ActionRow::new().build();
    assert!(empty.get_children().is_empty());
}

#[test]
fn sections_need_a_component_and_an_accessory() {
    let section = Section::new()
        .accessory(Thumbnail::new("https://img".to_string()))
        .component(TextDisplay::new("hello".to_string()))
        .build();
    assert_eq!(section.count(), 1);
    assert!(matches!(section.get_accessory(), Some(SectionAccessory::Thumbnail(t)) if t.url == "https://img"));
    assert_eq!(section.get_id(), 0);

    let section = Section::new()
        .component(TextDisplay::new("one".to_string()))
        .component(TextDisplay::new("two".to_string()))
        .accessory(button("more"))
        .component(SectionComponent::TextDisplay(TextDisplay::new("three".to_string())))
        .accessory(button("other"))
        .build();
    assert_eq!(section.count(), 3);
    assert!(matches!(section.get_accessory(), Some(SectionAccessory::Button(b)) if b.custom_id == "other"));
}

#[test]
fn root_components_v2() {
    let mut root = RootComponent::new();
    assert!(!root.require_components_v2());
    root.add(ActionRow::new().button(button("x")).build());
    assert!(!root.require_components_v2());
    root.add(Separator);
    assert!(root.require_components_v2());

    let c: LayoutComponent = Container::new(7).into();
    assert_eq!(c.get_id(), 7);
    assert!(c.require_components_v2());
    let s: LayoutComponent = Separator.into();
    assert_eq!(s.get_id(), 0);
}

#[test]
fn layout_handler_places_once() {
    let mut root = RootComponent::new();
    let mut handler = LayoutComponentHandler::new(LayoutComponent::Separator(Separator));
    handler.build(&mut root);
    assert!(root.require_components_v2());
    let mut other = RootComponent::new();
    handler.build(&mut other);
    assert!(!other.require_components_v2());
}

#[test]
fn text_inputs() {
    let t = TextInput::new("feedback");
    assert_eq!(t.custom_id, "feedback");
    assert_eq!(t.required, Some(true));
    assert_eq!(t.style, TextStyle::Short);
    let t = t
        .placeholder("write here")
        .value("prefilled")
        .max_length(5000)
        .min_length(2)
        .required(false)
        .style(TextStyle::Paragraph)
        .label("Feedback");
    assert_eq!(t.placeholder.as_deref(), Some("write here"));
    assert_eq!(t.value.as_deref(), Some("prefilled"));
    assert_eq!(t.max_length, Some(5000));
    assert_eq!(t.min_length, Some(2));
    assert_eq!(t.required, Some(false));
    assert_eq!(t.style, TextStyle::Paragraph);
    assert_eq!(t.label.as_deref(), Some("Feedback"));
    assert_eq!(t.custom_id, "feedback");
}
