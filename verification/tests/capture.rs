use raspicam::image::camera_operations::capture_arguments;
use raspicam::image::camera_operations::capture_program;
use raspicam::image::settings::CameraSettings;
use raspicam::image::settings::ImageSettings;

#[test]
fn capture_program_name() {
    assert_eq!(capture_program(), "raspistill");
}

#[test]
fn capture_arguments_default_order() {
    let camera_settings: CameraSettings = CameraSettings::default();
    let image_settings: ImageSettings = ImageSettings::default();
    let args = capture_arguments(&camera_settings, &image_settings);
    let expected: Vec<&'static str> = vec![
        "-co", "50", "-sh", "30", "-br", "60", "-sa", "0", "-q", "100", "-t", "3000", "-ISO",
        "300", "-o", "~/raspicam.jpg", "-w", "200", "-h", "200", "-rot", "180", "-hf", "false",
        "-vf", "false",
    ];
    assert_eq!(args.len(), 26);
    assert_eq!(args, expected);
}

#[test]
fn capture_arguments_follow_overrides() {
    let camera_settings: CameraSettings = CameraSettings {
        quality: "75",
        ..Default::default()
    };
    let image_settings: ImageSettings = ImageSettings {
        rotation: "90",
        ..Default::default()
    };
    let args = capture_arguments(&camera_settings, &image_settings);
    assert_eq!(args[8], "-q");
    assert_eq!(args[9], "75");
    assert_eq!(args[20], "-rot");
    assert_eq!(args[21], "90");
}

#[test]
fn capture_arguments_deterministic_across_calls() {
    let camera_settings: CameraSettings = CameraSettings::default();
    let image_settings: ImageSettings = ImageSettings::default();
    let first = capture_arguments(&camera_settings, &image_settings);
    let second = capture_arguments(&camera_settings, &image_settings);
    assert_eq!(first, second);
}
