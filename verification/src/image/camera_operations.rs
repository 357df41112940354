//! Builds the argument list of the external capture program.
//!
//! The program is launched with thirteen flag/value pairs in a fixed order;
//! each value token is a settings field, passed unmodified. The list is built
//! as an argument array (never a shell string), so no escaping is performed.

use crate::image::settings::CameraSettings;
use crate::image::settings::ImageSettings;
use vstd::prelude::*;
use vstd::std_specs::cmp::PartialEqSpec;

verus! {

/// The argument tokens of one capture invocation, in the fixed flag order:
/// contrast, sharpness, brightness, saturation, quality, shutter timeout,
/// iso, output path, width, height, rotation, horizontal flip, vertical flip.
pub open spec fn capture_argument_seq(
    camera_settings: CameraSettings,
    image_settings: ImageSettings,
) -> Seq<&'static str> {
    seq![
        "-co",
        camera_settings.contrast,
        "-sh",
        camera_settings.sharpness,
        "-br",
        camera_settings.brightness,
        "-sa",
        camera_settings.saturation,
        "-q",
        camera_settings.quality,
        "-t",
        camera_settings.timeout,
        "-ISO",
        camera_settings.iso,
        "-o",
        camera_settings.output,
        "-w",
        image_settings.width,
        "-h",
        image_settings.height,
        "-rot",
        image_settings.rotation,
        "-hf",
        image_settings.horizontal_flip,
        "-vf",
        image_settings.vertical_flip,
    ]
}

/// The name of the external capture program.
pub fn capture_program() -> (r: &'static str)
    ensures
        r@ == "raspistill"@,
{
    "raspistill"
}

/// The argument array for one capture invocation: exactly 26 tokens, the
/// thirteen flag/value pairs of `capture_argument_seq` in its fixed order.
pub fn capture_arguments(
    camera_settings: &CameraSettings,
    image_settings: &ImageSettings,
) -> (args: Vec<&'static str>)
    ensures
        args@ == capture_argument_seq(*camera_settings, *image_settings),
        args@.len() == 26,
{
    let mut args: Vec<&'static str> = Vec::new();
    args.push("-co");
    args.push(camera_settings.contrast);
    args.push("-sh");
    args.push(camera_settings.sharpness);
    args.push("-br");
    args.push(camera_settings.brightness);
    args.push("-sa");
    args.push(camera_settings.saturation);
    args.push("-q");
    args.push(camera_settings.quality);
    args.push("-t");
    args.push(camera_settings.timeout);
    args.push("-ISO");
    args.push(camera_settings.iso);
    args.push("-o");
    args.push(camera_settings.output);
    args.push("-w");
    args.push(image_settings.width);
    args.push("-h");
    args.push(image_settings.height);
    args.push("-rot");
    args.push(image_settings.rotation);
    args.push("-hf");
    args.push(image_settings.horizontal_flip);
    args.push("-vf");
    args.push(image_settings.vertical_flip);
    proof {
        assert(args@ =~= capture_argument_seq(*camera_settings, *image_settings));
    }
    args
}

/// Argument-order determinism: settings records that compare equal yield
/// argument sequences of the same 26 tokens, value for value, in the same
/// fixed order.
pub proof fn lemma_capture_arguments_deterministic(
    c1: CameraSettings,
    i1: ImageSettings,
    c2: CameraSettings,
    i2: ImageSettings,
)
    requires
        c1.eq_spec(&c2),
        i1.eq_spec(&i2),
    ensures
        capture_argument_seq(c1, i1).len() == capture_argument_seq(c2, i2).len(),
        forall|k: int|
            0 <= k < capture_argument_seq(c1, i1).len() ==> (#[trigger] capture_argument_seq(
                c1,
                i1,
            )[k])@ == capture_argument_seq(c2, i2)[k]@,
{
}

} // verus!
