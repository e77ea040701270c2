use ui_common::components::avatar;
use ui_common::components::button;
use ui_common::components::heading::Level;
use ui_common::components::input;
use ui_common::components::modal::ModalVariant;
use ui_common::components::table;
use ui_common::components::tooltip::{visibility_classes, ARROW_CLASSES};
use ui_common::position::TooltipPosition;

#[test]
fn component_defaults() {
    assert_eq!(button::Color::default(), button::Color::Primary);
    assert_eq!(button::Variant::default(), button::Variant::Solid);
    assert_eq!(button::Size::default(), button::Size::Medium);
    assert_eq!(button::Round::default(), button::Round::Auto);
    assert_eq!(button::Width::default(), button::Width::Auto);
    assert_eq!(avatar::Size::default(), avatar::Size::Medium);
    assert_eq!(avatar::Variant::default(), avatar::Variant::Icon);
    assert_eq!(input::Variant::default(), input::Variant::Standard);
    assert_eq!(input::Size::default(), input::Size::Medium);
    assert_eq!(Level::default(), Level::H1);
    assert_eq!(table::Variant::default(), table::Variant::Classic);
}

#[test]
fn button_arrangements() {
    assert_eq!(button::Content::of(true, false, false), Some(button::Content::IconOnly));
    assert_eq!(button::Content::of(true, true, false), Some(button::Content::IconAndText));
    assert_eq!(button::Content::of(false, true, true), Some(button::Content::TextAndIcon));
    assert_eq!(button::Content::of(false, true, false), Some(button::Content::TextOnly));
    assert_eq!(button::Content::of(false, false, false), None);
    assert_eq!(button::Content::of(true, true, true), None);
    assert_eq!(button::Content::of(true, false, true), None);
    assert_eq!(button::Content::of(false, false, true), None);
}

#[test]
fn button_padding() {
    assert_eq!(button::Content::IconOnly.padding_classes(button::Size::ExtraSmall), "mm-p-1");
    assert_eq!(button::Content::IconOnly.padding_classes(button::Size::ExtraLarge), "mm-p-3");
    assert_eq!(button::Content::IconAndText.padding_classes(button::Size::Medium), "mm-pl-2 mm-pr-3 mm-py-1.5");
    assert_eq!(button::Content::TextAndIcon.padding_classes(button::Size::Large), "mm-pr-2.5 mm-pl-3.5 mm-py-2");
    assert_eq!(button::Content::TextOnly.padding_classes(button::Size::Small), "mm-px-3 mm-py-1.5");
    assert_eq!(button::Content::TextOnly.padding_classes(button::Size::ExtraLarge), "mm-px-5 mm-py-3");
}

#[test]
fn button_sizes_and_shapes() {
    assert_eq!(button::Size::ExtraSmall.text_size_class(), "mm-text-xs");
    assert_eq!(button::Size::Medium.text_size_class(), "mm-text-sm");
    assert_eq!(button::Size::ExtraLarge.text_size_class(), "mm-text-md");
    assert_eq!(button::Size::Small.icon_size_class(), "mm-text-base");
    assert_eq!(button::Size::Large.icon_size_class(), "text-xl");
    assert_eq!(button::Size::ExtraLarge.icon_size_class(), "text-2xl");
    assert_eq!(button::Round::Auto.rounded_class(button::Size::Small), "mm-rounded");
    assert_eq!(button::Round::Auto.rounded_class(button::Size::Medium), "mm-rounded-md");
    assert_eq!(button::Round::Auto.rounded_class(button::Size::ExtraLarge), "mm-rounded-lg");
    assert_eq!(button::Round::Full.rounded_class(button::Size::Small), "mm-rounded-full");
    assert_eq!(button::Width::Auto.width_class(), "mm-w-auto");
    assert_eq!(button::Width::Full.width_class(), "mm-w-full mm-justify-center");
}

#[test]
fn button_colours() {
    assert_eq!(
        button::Color::Primary.color_classes(button::Variant::Solid),
        "mm-text-white mm-bg-primary-700 hover:mm-bg-primary-600 disabled:mm-opacity-30 disabled:hover:mm-bg-primary-700"
    );
    assert!(button::Color::Secondary.color_classes(button::Variant::Outline).contains("mm-border-gray-high-950"));
    assert!(button::Color::Blind.color_classes(button::Variant::Outline).contains("mm-border-gray-high-800"));
    assert!(!button::Color::Blind.color_classes(button::Variant::Transparent).contains("mm-border"));
    for variant in [button::Variant::Solid, button::Variant::Outline, button::Variant::Transparent] {
        assert_eq!(
            button::Color::Success.color_classes(variant),
            "mm-text-white mm-bg-success-500 hover:mm-bg-success-600"
        );
        assert_eq!(
            button::Color::Danger.color_classes(variant),
            "mm-text-white mm-bg-danger-500 hover:mm-bg-danger-600"
        );
    }
}

#[test]
fn avatar_looks() {
    assert_eq!(avatar::Size::ExtraSmall.dimension_classes(), "mm-w-6 mm-h-6");
    assert_eq!(avatar::Size::Medium.dimension_classes(), "mm-w-8 mm-h-8");
    assert_eq!(avatar::Size::ExtraLarge.dimension_classes(), "mm-w-12 mm-h-12");
    assert_eq!(avatar::Variant::Icon.color_classes(), avatar::Variant::Letter.color_classes());
    assert_eq!(avatar::Variant::Image.color_classes(), "mm-border mm-border-transparent");
    assert_eq!(avatar::Variant::Letter.content_classes(), "mm-text-sm mm-uppercase");
    assert_eq!(avatar::Variant::Image.content_classes(), "mm-w-10 mm-h-10 mm-rounded-full");
    assert!(avatar::ConnectionStatus::Connecting.badge_classes().contains("mm-animate-ping"));
    assert!(avatar::ConnectionStatus::Open.badge_classes().contains("mm-bg-green-700"));
    assert!(avatar::ConnectionStatus::Closed.badge_classes().contains("mm-bg-gray-high-900"));
}

#[test]
fn avatar_letter_is_first_character() {
    assert_eq!(avatar::letter("marie"), 'm');
    assert_eq!(avatar::letter("\u{e9}mile"), '\u{e9}');
    assert_eq!(avatar::letter(""), '\0');
    assert_eq!(avatar::letter(""), char::default());
}

#[test]
fn input_looks() {
    assert_eq!(input::Variant::Standard.padding_classes(input::Size::Small), "mm-px-2 mm-py-0.5");
    assert_eq!(input::Variant::Round.padding_classes(input::Size::Large), "mm-px-4 mm-py-1.5");
    assert_eq!(input::Variant::Underline.padding_classes(input::Size::ExtraLarge), "mm-py-3");
    assert_eq!(input::Size::Medium.text_size_classes(), "mm-text-md mm-font-normal");
    assert_eq!(input::Size::ExtraLarge.text_size_classes(), "mm-text-3xl mm-font-medium");
    assert_eq!(input::Variant::Standard.border_classes(), input::Variant::Round.border_classes());
    assert!(input::Variant::Underline.border_classes().starts_with("mm-border-b "));
    assert_eq!(input::Variant::Standard.border_radius_classes(input::Size::Large), "mm-rounded-md");
    assert_eq!(input::Variant::Standard.border_radius_classes(input::Size::ExtraLarge), "mm-rounded-lg");
    assert_eq!(input::Variant::Round.border_radius_classes(input::Size::Small), "mm-rounded-full");
    assert_eq!(input::Variant::Underline.border_radius_classes(input::Size::Small), "mm-rounded-none");
}

#[test]
fn heading_levels() {
    assert_eq!(Level::H1.tag(), "h1");
    assert_eq!(Level::H6.tag(), "h6");
    assert_eq!(Level::H1.class(), "mm-text-4xl mm-font-bold");
    assert_eq!(Level::H3.class(), "mm-text-2xl mm-font-bold");
    assert_eq!(Level::H6.class(), "mm-text-md mm-font-bold");
}

#[test]
fn table_column_places() {
    assert_eq!(table::ColumnPlace::of(0, 1), table::ColumnPlace::First);
    assert_eq!(table::ColumnPlace::of(0, 3), table::ColumnPlace::First);
    assert_eq!(table::ColumnPlace::of(1, 3), table::ColumnPlace::Inner);
    assert_eq!(table::ColumnPlace::of(2, 3), table::ColumnPlace::Last);
    assert_eq!(table::ColumnPlace::of(1, 2), table::ColumnPlace::Last);
}

#[test]
fn table_looks() {
    assert_eq!(table::Variant::Separated.cell_classes(table::ColumnPlace::First), "mm-max-w-lg mm-rounded-l-lg");
    assert_eq!(table::Variant::Separated.cell_classes(table::ColumnPlace::Last), "mm-max-w-lg mm-rounded-r-lg");
    assert_eq!(table::Variant::Separated.cell_classes(table::ColumnPlace::Inner), "mm-max-w-lg");
    assert_eq!(table::Variant::Classic.cell_classes(table::ColumnPlace::First), "");
    assert_eq!(table::Variant::Classic.width_classes(table::ColumnPlace::First), "mm-w-[90%] mm-min-w-64");
    assert_eq!(table::Variant::Classic.width_classes(table::ColumnPlace::Last), "");
    assert_eq!(table::Variant::Separated.width_classes(table::ColumnPlace::First), "");
    assert_eq!(
        table::Variant::Classic.row_border_classes(),
        "mm-border-b mm-border-gray-high-500 dark:mm-border-gray-low-800"
    );
    assert_eq!(table::Variant::Separated.row_border_classes(), "");
    assert_eq!(table::Variant::Classic.separation_classes(), "");
    assert_eq!(
        table::Variant::Separated.separation_classes(),
        "mm-space-y-3 mm-border-spacing-y-3 mm-border-separate mm--mt-3"
    );
}

#[test]
fn modal_looks() {
    assert_eq!(ModalVariant::Bottom.title_classes(), "mm-flex-col");
    assert_eq!(ModalVariant::Center.title_classes(), "mm-flex-row mm-pt-6 mm-pb-3 mm-gap-4");
    assert_eq!(ModalVariant::Fullscreen.title_classes(), ModalVariant::Center.title_classes());
    assert_eq!(ModalVariant::Center.title_text_classes(), "mm-text-left");
    assert_eq!(ModalVariant::Bottom.title_text_classes(), "mm-text-center");
    assert_eq!(ModalVariant::Center.body_classes(), "");
    assert_eq!(ModalVariant::Fullscreen.body_classes(), "mm-max-w-2xl mm-mx-auto mm-mb-auto");
    assert_eq!(ModalVariant::Fullscreen.actions_classes(), "mm-max-w-2xl mm-mx-auto mm-mt-auto");
    assert_eq!(ModalVariant::Bottom.actions_classes(), "");
    assert_eq!(ModalVariant::Center.wrapper_classes(), "mm-items-center mm-justify-center");
    assert_eq!(ModalVariant::Fullscreen.wrapper_classes(), "mm-items-center");
    assert_eq!(ModalVariant::Bottom.wrapper_classes(), "mm-items-end");
    assert_eq!(
        ModalVariant::Center.modal_classes(),
        "mm-rounded-lg mm-w-[calc(100%-24px)] mm-max-w-md mm-max-h-[calc(100vh-16px)] mm-mt-4 mm-items-center"
    );
    assert_eq!(ModalVariant::Fullscreen.modal_classes(), "mm-w-full mm-h-full mm-items-center");
    assert_eq!(
        ModalVariant::Bottom.modal_classes(),
        "mm-w-full mm-items-end mm-max-h-[65vh] mm-rounded-t-2xl mm-transition-transform mm-duration-75"
    );
}

#[test]
fn only_bottom_sheet_is_dragged() {
    assert!(ModalVariant::Bottom.has_drag_handle());
    assert!(!ModalVariant::Bottom.has_close_button());
    assert!(!ModalVariant::Center.has_drag_handle());
    assert!(ModalVariant::Center.has_close_button());
    assert!(!ModalVariant::Fullscreen.has_drag_handle());
    assert!(ModalVariant::Fullscreen.has_close_button());
}

#[test]
fn tooltip_looks() {
    assert_eq!(visibility_classes(false), "mm-invisible mm-opacity-0");
    assert_eq!(visibility_classes(true), "mm-opacity-100");
    assert_eq!(ARROW_CLASSES, "before:mm-content-[''] before:mm-absolute before:mm-border-[8px]");
    assert_eq!(
        TooltipPosition::Bottom.arrow_classes(),
        "before:mm-bottom-[100%] before:mm-left-[50%] before:-mm-ml-[8px] before:mm-border-t-transparent before:mm-border-r-transparent before:mm-border-b-gray-high-200 dark:before:mm-border-b-gray-low-800 before:mm-border-l-transparent"
    );
    assert!(TooltipPosition::Right.arrow_classes().starts_with("before:mm-top-[50%] before:mm-right-[100%]"));
    assert!(TooltipPosition::Top.arrow_classes().starts_with("before:mm-top-[100%] before:mm-left-[50%]"));
    assert!(TooltipPosition::Left.arrow_classes().starts_with("before:mm-top-[50%] before:mm-left-[100%]"));
}

#[test]
fn first_button_labels() {
    assert_eq!(ui_common::button::Color::Primary.label(), "primary");
    assert_eq!(ui_common::button::Color::Secondary.label(), "secondary");
    assert_eq!(ui_common::button::Color::Success.label(), "success");
    assert_eq!(ui_common::button::Color::Danger.label(), "danger");
    assert_eq!(ui_common::button::Color::Dark.label(), "dark");
    assert_eq!(ui_common::button::Variant::Solid.label(), "solid");
    assert_eq!(ui_common::button::Variant::Outline.label(), "outline");
    assert_eq!(ui_common::button::Variant::Transparent.label(), "transparent");
    assert_eq!(ui_common::button::Rounded::Auto.label(), "rounded-auto");
    assert_eq!(ui_common::button::Rounded::Full.label(), "rounded-full");
}

#[test]
fn first_button_looks() {
    assert_eq!(ui_common::button::Color::default(), ui_common::button::Color::Primary);
    assert_eq!(ui_common::button::Variant::default(), ui_common::button::Variant::Solid);
    assert_eq!(ui_common::button::Size::default(), ui_common::button::Size::Medium);
    assert_eq!(ui_common::button::Rounded::default(), ui_common::button::Rounded::Auto);
    assert_eq!(ui_common::button::Size::Small.padding_classes(), "px-2 py-1");
    assert_eq!(ui_common::button::Size::Medium.padding_classes(), "px-2.5 py-1.5");
    assert_eq!(ui_common::button::Size::Large.padding_classes(), "px-3 py-2");
    assert_eq!(ui_common::button::Size::ExtraLarge.padding_classes(), "px-2 py-1");
    assert_eq!(ui_common::button::Size::Small.text_size_class(), "text-sm font-medium");
    assert_eq!(ui_common::button::Size::ExtraLarge.text_size_class(), "text-xs");
    assert_eq!(
        ui_common::button::Color::Primary.color_classes(),
        "text-white bg-primary-700 hover:bg-primary-600"
    );
    assert_eq!(
        ui_common::button::Color::Dark.color_classes(),
        "text-gray-800 bg-gray-100 hover:bg-gray-200"
    );
}
