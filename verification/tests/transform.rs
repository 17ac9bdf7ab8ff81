use screencap::model::{ErrorKind, LogicalParam, Monitor, PhysicalParam, ScaleFactor};
use screencap::screenshot::screenshot_take;
use screencap::screenshots::{logical_to_physical, screenshots_take};
use screencap::transform::scale_length;
use screencap::util::find_monitor;

fn region(left: i32, top: i32, width: i32, height: i32) -> LogicalParam {
    LogicalParam { left, top, width, height, screen_x: 0, screen_y: 0 }
}

fn display(x: i32, y: i32, width: u32, height: u32, numer: u32, denom: u32) -> Monitor {
    let scale = ScaleFactor::new(numer, denom).unwrap();
    Monitor::new(1, Some(x), Some(y), width, height, Some(scale)).unwrap()
}

#[test]
fn region_at_scale_two_doubles() {
    let monitor = display(0, 0, 3840, 2160, 2, 1);
    let physical = PhysicalParam::new(&monitor, &region(0, 0, 100, 100));
    assert_eq!(physical, PhysicalParam { left: 0, top: 0, width: 200, height: 200 });
}

#[test]
fn halves_round_away_from_zero() {
    let three_halves = ScaleFactor::new(3, 2).unwrap();
    assert_eq!(scale_length(1, three_halves), 2);
    assert_eq!(scale_length(3, three_halves), 5);
    assert_eq!(scale_length(2, three_halves), 3);
    let five_quarters = ScaleFactor::new(5, 4).unwrap();
    assert_eq!(scale_length(2, five_quarters), 3);
    assert_eq!(scale_length(1, five_quarters), 1);
    assert_eq!(scale_length(3, five_quarters), 4);
    assert_eq!(scale_length(100, five_quarters), 125);
}

#[test]
fn below_a_half_rounds_down() {
    let third = ScaleFactor::new(1, 3).unwrap();
    assert_eq!(scale_length(1, third), 0);
    assert_eq!(scale_length(2, third), 1);
    assert_eq!(scale_length(4, third), 1);
    assert_eq!(scale_length(5, third), 2);
}

#[test]
fn lengths_that_are_not_positive_scale_to_zero() {
    let double = ScaleFactor::new(2, 1).unwrap();
    assert_eq!(scale_length(0, double), 0);
    assert_eq!(scale_length(-1, double), 0);
    assert_eq!(scale_length(i32::MIN, double), 0);
}

#[test]
fn scaled_length_saturates() {
    let huge = ScaleFactor::new(u32::MAX, 1).unwrap();
    assert_eq!(scale_length(i32::MAX, huge), u32::MAX);
    assert_eq!(scale_length(2, huge), u32::MAX);
    assert_eq!(scale_length(1, huge), u32::MAX);
    // (2^31 - 1) / (2^32 - 1) is just below one half.
    let tiny = ScaleFactor::new(1, u32::MAX).unwrap();
    assert_eq!(scale_length(i32::MAX, tiny), 0);
    let half = ScaleFactor::new(1, 2).unwrap();
    assert_eq!(scale_length(i32::MAX, half), 1 << 30);
}

#[test]
fn unit_in_a_finer_grid_folds_into_the_ratio() {
    // 100.5 logical pixels counted in halves, at a scale factor of 3/2.
    let scale = ScaleFactor::new(3, 2 * 2).unwrap();
    assert_eq!(scale_length(201, scale), 151);
}

#[test]
fn missing_scale_factor_means_one() {
    let monitor = Monitor::new(7, Some(0), Some(0), 800, 600, None).unwrap();
    assert_eq!(monitor.scale_factor().numer(), 1);
    assert_eq!(monitor.scale_factor().denom(), 1);
    let physical = PhysicalParam::new(&monitor, &region(10, 20, 30, 40));
    assert_eq!(physical, PhysicalParam { left: 10, top: 20, width: 30, height: 40 });
}

#[test]
fn region_is_cut_to_the_display() {
    let monitor = display(0, 0, 1920, 1080, 1, 1);
    let physical = PhysicalParam::new(&monitor, &region(1900, 1000, 100, 100));
    assert_eq!(physical, PhysicalParam { left: 1900, top: 1000, width: 20, height: 80 });
}

#[test]
fn region_beyond_the_display_is_moved_to_its_last_pixel() {
    let monitor = display(0, 0, 1920, 1080, 1, 1);
    let physical = PhysicalParam::new(&monitor, &region(5000, 5000, 10, 10));
    assert_eq!(physical, PhysicalParam { left: 1919, top: 1079, width: 1, height: 1 });
}

#[test]
fn region_that_scales_to_nothing_is_one_pixel() {
    let monitor = display(0, 0, 1920, 1080, 1, 4);
    let physical = PhysicalParam::new(&monitor, &region(0, 0, 1, 1));
    assert_eq!(physical, PhysicalParam { left: 0, top: 0, width: 1, height: 1 });
}

#[test]
fn transformed_region_lies_on_the_display() {
    let monitors = [
        display(0, 0, 1, 1, 7, 3),
        display(0, 0, 1920, 1080, 5, 4),
        display(0, 0, u32::MAX, u32::MAX, u32::MAX, 1),
    ];
    let values = [i32::MIN, -1, 0, 1, 2, 99, 1535, 1536, 1920, i32::MAX];
    for monitor in monitors.iter() {
        for &left in values.iter() {
            for &width in values.iter() {
                let physical = PhysicalParam::new(monitor, &region(left, left, width, width));
                assert!(physical.width >= 1 && physical.height >= 1);
                assert!(physical.left as u64 + physical.width as u64 <= monitor.width() as u64);
                assert!(physical.top as u64 + physical.height as u64 <= monitor.height() as u64);
            }
        }
    }
}

#[test]
fn clamp_keeps_a_region_that_fits() {
    let inside = PhysicalParam { left: 10, top: 10, width: 100, height: 50 };
    assert_eq!(inside.clamp(110, 60), inside);
    let empty = PhysicalParam { left: 0, top: 0, width: 0, height: 0 };
    assert_eq!(empty.clamp(4, 4), PhysicalParam { left: 0, top: 0, width: 1, height: 1 });
    let wide = PhysicalParam { left: 3, top: 9, width: u32::MAX, height: u32::MAX };
    assert_eq!(wide.clamp(8, 8), PhysicalParam { left: 3, top: 7, width: 5, height: 1 });
}

#[test]
fn scaling_alone_does_not_cut() {
    let monitor = display(0, 0, 100, 100, 2, 1);
    let scaled = logical_to_physical(&monitor, &region(80, 80, 80, 80));
    assert_eq!(scaled, PhysicalParam { left: 160, top: 160, width: 160, height: 160 });
    let cut = PhysicalParam::new(&monitor, &region(80, 80, 80, 80));
    assert_eq!(cut, PhysicalParam { left: 99, top: 99, width: 1, height: 1 });
    assert_eq!(scaled.clamp(monitor.width(), monitor.height()), cut);
}

#[test]
fn validate_accepts_valid_regions_only() {
    assert!(region(0, 0, 1, 1).validate().is_ok());
    assert!(region(i32::MAX, i32::MAX, i32::MAX, i32::MAX).validate().is_ok());
    for bad in [region(-1, 0, 1, 1), region(0, -1, 1, 1), region(0, 0, 0, 1), region(0, 0, 1, 0),
        region(0, 0, -5, 1), region(0, 0, 1, -5)]
    {
        let error = bad.validate().unwrap_err();
        assert_eq!(error.kind, ErrorKind::Validation);
        assert_eq!(error.message, "invalid param");
    }
}

#[test]
fn displays_and_scale_factors_are_checked() {
    assert!(ScaleFactor::new(0, 1).is_none());
    assert!(ScaleFactor::new(1, 0).is_none());
    assert!(ScaleFactor::new(1, 1).is_some());
    assert!(Monitor::new(1, None, None, 0, 10, None).is_none());
    assert!(Monitor::new(1, None, None, 10, 0, None).is_none());
    let monitor = Monitor::new(9, Some(-5), None, 10, 20, None).unwrap();
    assert_eq!(monitor.id(), 9);
    assert_eq!(monitor.width(), 10);
    assert_eq!(monitor.height(), 20);
}

#[test]
fn second_display_at_origin_is_found() {
    let monitors = vec![display(1920, 0, 1920, 1080, 1, 1), display(0, 0, 2560, 1440, 2, 1)];
    assert_eq!(find_monitor(&monitors, 0, 0), Some(1));
    assert_eq!(find_monitor(&monitors, 1920, 0), Some(0));
}

#[test]
fn first_of_equal_origins_is_found() {
    let monitors = vec![
        display(0, 1, 10, 10, 1, 1),
        display(8, 8, 10, 10, 1, 1),
        display(8, 8, 20, 20, 1, 1),
    ];
    assert_eq!(find_monitor(&monitors, 8, 8), Some(1));
}

#[test]
fn origin_must_match_exactly() {
    let monitors = vec![display(0, 0, 10, 10, 1, 1)];
    assert_eq!(find_monitor(&monitors, 0, 1), None);
    assert_eq!(find_monitor(&monitors, 1, 0), None);
    assert_eq!(find_monitor(&monitors, -1, -1), None);
    assert_eq!(find_monitor(&Vec::new(), 0, 0), None);
}

#[test]
fn display_without_origin_is_never_found() {
    let monitors = vec![
        Monitor::new(1, None, Some(0), 10, 10, None).unwrap(),
        Monitor::new(2, Some(0), None, 10, 10, None).unwrap(),
        Monitor::new(3, None, None, 10, 10, None).unwrap(),
    ];
    assert_eq!(find_monitor(&monitors, 0, 0), None);
}

#[test]
fn screenshot_resolves_display_and_region() {
    let monitors = vec![display(1920, 0, 1920, 1080, 1, 1), display(0, 0, 2560, 1440, 2, 1)];
    let target = screenshot_take(&region(10, 20, 100, 50), &monitors).unwrap();
    assert_eq!(target.monitor, 1);
    assert_eq!(target.region, PhysicalParam { left: 20, top: 40, width: 200, height: 100 });
}

#[test]
fn screenshot_rejects_invalid_region_first() {
    let error = screenshot_take(&region(-1, 0, 10, 10), &Vec::new()).unwrap_err();
    assert_eq!(error.kind, ErrorKind::Validation);
    assert_eq!(error.message, "invalid param");
}

#[test]
fn screenshot_without_display_fails() {
    let monitors = vec![display(5, 5, 10, 10, 1, 1)];
    let error = screenshot_take(&region(0, 0, 10, 10), &monitors).unwrap_err();
    assert_eq!(error.kind, ErrorKind::MonitorNotFound);
    assert_eq!(error.message, "monitor not found");
}

#[test]
fn failed_enumeration_is_not_a_missing_display() {
    let failed: Result<Vec<Monitor>, String> = Err(String::from("no display server"));
    let error = screenshots_take(&region(0, 0, 10, 10), &failed).unwrap_err();
    assert_eq!(error.kind, ErrorKind::CaptureFailure);
    assert_eq!(error.message, "no display server");

    let error = screenshots_take(&region(0, 0, 0, 10), &failed).unwrap_err();
    assert_eq!(error.kind, ErrorKind::Validation);

    let none: Result<Vec<Monitor>, String> = Ok(Vec::new());
    let error = screenshots_take(&region(0, 0, 10, 10), &none).unwrap_err();
    assert_eq!(error.kind, ErrorKind::MonitorNotFound);
    assert_eq!(error.message, "monitor not found");
}

#[test]
fn enumerated_displays_are_searched() {
    let found: Result<Vec<Monitor>, String> = Ok(vec![display(0, 0, 300, 300, 3, 2)]);
    let target = screenshots_take(&region(100, 100, 200, 200), &found).unwrap();
    assert_eq!(target.monitor, 0);
    assert_eq!(target.region, PhysicalParam { left: 150, top: 150, width: 150, height: 150 });
}
