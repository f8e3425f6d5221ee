use screen_grabber::naming::{
    default_convention, image_extension, numeric_convention, save_destination,
    save_destination_at, time_convention, time_convention_at, Conventions, MyRadio, SaveSettings,
};

fn settings(convention: Conventions, format: MyRadio, counter: i32) -> SaveSettings {
    SaveSettings {
        file_path: "screenshot_grabbed".to_string(),
        my_convention: convention,
        radio_group: format,
        counter,
    }
}

#[test]
fn default_convention_keeps_path() {
    assert_eq!(default_convention("a/b/shot".to_string()), "a/b/shot");
    assert_eq!(default_convention(String::new()), "");
}

#[test]
fn time_convention_appends_stamp() {
    assert_eq!(
        time_convention_at("shot".to_string(), "07-08-2001_00-34"),
        "shot_07-08-2001_00-34"
    );
}

#[test]
fn time_convention_reads_clock() {
    let r = time_convention("shot".to_string());
    assert!(r.starts_with("shot_"));
    let stamp: Vec<char> = r["shot_".len()..].chars().collect();
    assert!(stamp.len() >= 16);
    assert!(stamp[0].is_ascii_digit() && stamp[1].is_ascii_digit());
    assert_eq!(stamp[2], '-');
    assert_eq!(stamp[5], '-');
    assert_eq!(stamp[stamp.len() - 6], '_');
    assert_eq!(stamp[stamp.len() - 3], '-');
}

#[test]
fn numeric_convention_counts() {
    let mut data = settings(Conventions::NumericConvention, MyRadio::Png, 0);
    assert_eq!(numeric_convention("shot".to_string(), &mut data), "shot_1");
    assert_eq!(data.counter, 1);
    assert_eq!(numeric_convention("shot".to_string(), &mut data), "shot_2");
    assert_eq!(data.counter, 2);
    let mut data = settings(Conventions::NumericConvention, MyRadio::Png, 9);
    assert_eq!(numeric_convention("x".to_string(), &mut data), "x_10");
    let mut data = settings(Conventions::NumericConvention, MyRadio::Png, -5);
    assert_eq!(numeric_convention("x".to_string(), &mut data), "x_-4");
}

#[test]
fn extensions() {
    assert_eq!(image_extension(MyRadio::Png), "png");
    assert_eq!(image_extension(MyRadio::Jpeg), "jpeg");
    assert_eq!(image_extension(MyRadio::Gif), "gif");
}

#[test]
fn destinations_per_convention() {
    let mut d = settings(Conventions::DefaultConvention, MyRadio::Jpeg, 3);
    assert_eq!(save_destination_at(&mut d, "ignored"), "screenshot_grabbed.jpeg");
    assert_eq!(d.counter, 3);
    let mut t = settings(Conventions::TimeConvention, MyRadio::Gif, 3);
    assert_eq!(
        save_destination_at(&mut t, "01-01-2024_12-00"),
        "screenshot_grabbed_01-01-2024_12-00.gif"
    );
    assert_eq!(t.counter, 3);
    let mut n = settings(Conventions::NumericConvention, MyRadio::Png, 3);
    assert_eq!(save_destination_at(&mut n, ""), "screenshot_grabbed_4.png");
    assert_eq!(n.counter, 4);
}

#[test]
fn numeric_saves_never_repeat() {
    let mut n = settings(Conventions::NumericConvention, MyRadio::Png, 0);
    let first = save_destination(&mut n);
    let second = save_destination(&mut n);
    assert_eq!(first, "screenshot_grabbed_1.png");
    assert_eq!(second, "screenshot_grabbed_2.png");
    assert_ne!(first, second);
}

#[test]
fn time_destination_shape() {
    let mut t = settings(Conventions::TimeConvention, MyRadio::Png, 0);
    let r = save_destination(&mut t);
    assert!(r.starts_with("screenshot_grabbed_"));
    assert!(r.ends_with(".png"));
    assert_eq!(t.counter, 0);
}
