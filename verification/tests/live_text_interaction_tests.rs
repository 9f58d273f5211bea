use visionkit::live_text_interaction::{u64_to_usize, validate_selected_ranges, LiveTextMenuTagConstants};
use visionkit::{
    LiveTextMenu, LiveTextMenuItem,
    LiveTextInteractionTypes, LiveTextMenuTag, LiveTextSubjectUnavailable, LiveTextTextRange,
    VisionKitError,
};

#[test]
fn live_text_interaction_extended_types_are_exported() {
    assert_eq!(
        LiveTextSubjectUnavailable::ImageUnavailable.to_string(),
        "subject image is unavailable"
    );
    let range = LiveTextTextRange::new(3, 4);
    assert_eq!((range.location, range.length, range.end()), (3, 4, 7));
    assert_eq!(LiveTextMenuTag::new(9).raw_value(), 9);
}

#[test]
fn range_end_saturates() {
    assert_eq!(LiveTextTextRange::new(usize::MAX - 1, 5).end(), usize::MAX);
    assert_eq!(LiveTextTextRange::new(0, 0).end(), 0);
    assert_eq!(LiveTextTextRange::default(), LiveTextTextRange::new(0, 0));
}

#[test]
fn overflowing_selection_ranges_are_rejected() {
    let largest_swift_int = usize::MAX >> 1;
    for range in [
        LiveTextTextRange::new(1, largest_swift_int),
        LiveTextTextRange::new(largest_swift_int, largest_swift_int),
    ] {
        let result = validate_selected_ranges(&[range]);
        assert!(
            matches!(result, Err(VisionKitError::InvalidArgument(_))),
            "expected InvalidArgument for {range:?}, got {result:?}"
        );
    }
    assert!(validate_selected_ranges(&[LiveTextTextRange::new(0, usize::MAX)]).is_err());
    assert_eq!(validate_selected_ranges(&[LiveTextTextRange::new(0, 1)]), Ok(()));
    assert_eq!(
        validate_selected_ranges(&[LiveTextTextRange::new(0, largest_swift_int)]),
        Ok(())
    );
    assert_eq!(validate_selected_ranges(&[]), Ok(()));
    assert_eq!(
        validate_selected_ranges(&[
            LiveTextTextRange::new(2, 3),
            LiveTextTextRange::new(largest_swift_int, 1),
        ]),
        Err(VisionKitError::InvalidArgument(String::from(
            "selected text range end overflows"
        )))
    );
}

fn constants() -> LiveTextMenuTagConstants {
    LiveTextMenuTagConstants {
        copy_image: 11,
        share_image: 12,
        copy_subject: 13,
        share_subject: 14,
        lookup_item: 15,
        recommended_app_items: 16,
    }
}

#[test]
fn menu_tags_come_from_the_constants() {
    assert_eq!(LiveTextMenuTag::copy_image(Ok(constants())).map(LiveTextMenuTag::raw_value), Ok(11));
    assert_eq!(LiveTextMenuTag::share_image(Ok(constants())).map(LiveTextMenuTag::raw_value), Ok(12));
    assert_eq!(LiveTextMenuTag::copy_subject(Ok(constants())).map(LiveTextMenuTag::raw_value), Ok(13));
    assert_eq!(LiveTextMenuTag::share_subject(Ok(constants())).map(LiveTextMenuTag::raw_value), Ok(14));
    assert_eq!(LiveTextMenuTag::lookup_item(Ok(constants())).map(LiveTextMenuTag::raw_value), Ok(15));
    assert_eq!(
        LiveTextMenuTag::recommended_app_items(Ok(constants())).map(LiveTextMenuTag::raw_value),
        Ok(16)
    );
    let failure = VisionKitError::UnavailableOnThisMacOS(String::from("needs macOS 14"));
    assert_eq!(LiveTextMenuTag::copy_image(Err(failure.clone())), Err(failure));
}

#[test]
fn interaction_types_combine_as_bit_sets() {
    let types = LiveTextInteractionTypes::TEXT_SELECTION | LiveTextInteractionTypes::DATA_DETECTORS;
    assert_eq!(types.bits(), 6);
    assert!(types.contains(LiveTextInteractionTypes::DATA_DETECTORS));
    assert!(!types.contains(LiveTextInteractionTypes::AUTOMATIC));
    assert_eq!(LiveTextInteractionTypes::new(32), LiveTextInteractionTypes::AUTOMATIC_TEXT_ONLY);
    assert_eq!(LiveTextInteractionTypes::new(8), LiveTextInteractionTypes::IMAGE_SUBJECT);
    assert_eq!(LiveTextInteractionTypes::VISUAL_LOOK_UP.bits(), 16);
    assert_eq!(LiveTextInteractionTypes::default(), LiveTextInteractionTypes::NONE);
    let mut all = LiveTextInteractionTypes::NONE;
    all |= LiveTextInteractionTypes::AUTOMATIC;
    all |= LiveTextInteractionTypes::IMAGE_SUBJECT;
    assert_eq!(all, LiveTextInteractionTypes::new(9));
}

#[test]
fn lengths_convert_when_they_fit() {
    assert_eq!(u64_to_usize(4096, "subject image"), Ok(4096));
    if usize::BITS < 64 {
        assert_eq!(
            u64_to_usize(u64::MAX, "subject image"),
            Err(VisionKitError::Unknown(String::from(
                "subject image length exceeded this platform's address width"
            )))
        );
    } else {
        assert_eq!(u64_to_usize(u64::MAX, "subject image"), Ok(usize::MAX));
    }
}

#[test]
fn menus_clone_and_compare_item_by_item() {
    let submenu = LiveTextMenu {
        title: String::from("Share"),
        items: vec![LiveTextMenuItem {
            title: String::from("Mail"),
            tag: 4,
            is_separator: false,
            is_enabled: true,
            is_hidden: false,
            state: 0,
            submenu: None,
        }],
    };
    let menu = LiveTextMenu {
        title: String::from("Image"),
        items: vec![
            LiveTextMenuItem {
                title: String::from("Copy"),
                tag: 1,
                is_separator: false,
                is_enabled: true,
                is_hidden: false,
                state: 1,
                submenu: None,
            },
            LiveTextMenuItem {
                title: String::new(),
                tag: 0,
                is_separator: true,
                is_enabled: false,
                is_hidden: false,
                state: 0,
                submenu: Some(Box::new(submenu)),
            },
        ],
    };
    let copy = menu.clone();
    assert_eq!(copy, menu);
    assert_eq!(copy.items[1].submenu.as_ref().map(|m| m.items[0].tag), Some(4));
    let mut changed = menu.clone();
    changed.items[0].state = 2;
    assert_ne!(changed, menu);
    assert_eq!(menu.items[0].clone(), menu.items[0]);
}
