//! Settings records for the camera and the image.
//!
//! Both are plain value records of textual parameter tokens: each field is
//! passed verbatim as a command-line value to the external capture program,
//! which does its own validation. Defaults are fixed literals; a caller
//! overrides a subset of fields with struct-update syntax and keeps the rest.

use vstd::prelude::*;
use vstd::std_specs::cmp::PartialEqSpec;

verus! {

/// Relies on str's PartialEq: string slices are equal exactly when their
/// character sequences are equal.
#[verifier::external_body]
fn str_eq(a: &str, b: &str) -> (r: bool)
    ensures
        r == (a@ == b@),
{
    a == b
}

/// Settings for the camera: every field is the textual value handed to the
/// corresponding flag of the external capture program.
#[derive(Clone, Copy, Debug)]
pub struct CameraSettings {
    pub contrast: &'static str,
    pub sharpness: &'static str,
    pub brightness: &'static str,
    pub saturation: &'static str,
    pub quality: &'static str,
    pub timeout: &'static str,
    pub iso: &'static str,
    pub output: &'static str,
}

/// Holds exactly of the record that `CameraSettings::default` returns.
pub open spec fn is_default_camera_settings(c: CameraSettings) -> bool {
    &&& c.contrast@ == "50"@
    &&& c.sharpness@ == "30"@
    &&& c.brightness@ == "60"@
    &&& c.saturation@ == "0"@
    &&& c.quality@ == "100"@
    &&& c.timeout@ == "3000"@
    &&& c.iso@ == "300"@
    &&& c.output@ == "~/raspicam.jpg"@
}

impl Default for CameraSettings {
    /// The default camera record: contrast 50, sharpness 30, brightness 60,
    /// saturation 0, quality 100, timeout 3000 ms, iso 300, and a fixed
    /// home-directory output path.
    fn default() -> (r: CameraSettings)
        ensures
            is_default_camera_settings(r),
    {
        CameraSettings {
            contrast: "50",
            sharpness: "30",
            brightness: "60",
            saturation: "0",
            quality: "100",
            timeout: "3000",
            iso: "300",
            output: "~/raspicam.jpg",
        }
    }
}

impl PartialEq for CameraSettings {
    fn eq(&self, other: &CameraSettings) -> (r: bool) {
        str_eq(self.contrast, other.contrast) && str_eq(self.sharpness, other.sharpness)
            && str_eq(self.brightness, other.brightness)
            && str_eq(self.saturation, other.saturation) && str_eq(self.quality, other.quality)
            && str_eq(self.timeout, other.timeout) && str_eq(self.iso, other.iso)
            && str_eq(self.output, other.output)
    }
}

impl vstd::std_specs::cmp::PartialEqSpecImpl for CameraSettings {
    open spec fn obeys_eq_spec() -> bool {
        true
    }

    open spec fn eq_spec(&self, other: &CameraSettings) -> bool {
        &&& self.contrast@ == other.contrast@
        &&& self.sharpness@ == other.sharpness@
        &&& self.brightness@ == other.brightness@
        &&& self.saturation@ == other.saturation@
        &&& self.quality@ == other.quality@
        &&& self.timeout@ == other.timeout@
        &&& self.iso@ == other.iso@
        &&& self.output@ == other.output@
    }
}

/// Default construction is deterministic: any two records with the default
/// camera values are equal under `==`.
pub proof fn lemma_default_camera_settings_unique(a: CameraSettings, b: CameraSettings)
    requires
        is_default_camera_settings(a),
        is_default_camera_settings(b),
    ensures
        a.eq_spec(&b),
{
}

/// Two camera records compare equal exactly when every field matches;
/// a difference in any single field makes them unequal.
pub proof fn lemma_camera_settings_eq_is_field_eq(a: CameraSettings, b: CameraSettings)
    ensures
        a.eq_spec(&b) <==> {
            &&& a.contrast@ == b.contrast@
            &&& a.sharpness@ == b.sharpness@
            &&& a.brightness@ == b.brightness@
            &&& a.saturation@ == b.saturation@
            &&& a.quality@ == b.quality@
            &&& a.timeout@ == b.timeout@
            &&& a.iso@ == b.iso@
            &&& a.output@ == b.output@
        },
{
}

/// Settings for the image: every field is the textual value handed to the
/// corresponding flag of the external capture program.
#[derive(Clone, Copy, Debug)]
pub struct ImageSettings {
    pub width: &'static str,
    pub height: &'static str,
    pub rotation: &'static str,
    pub horizontal_flip: &'static str,
    pub vertical_flip: &'static str,
}

/// Holds exactly of the record that `ImageSettings::default` returns.
pub open spec fn is_default_image_settings(i: ImageSettings) -> bool {
    &&& i.width@ == "200"@
    &&& i.height@ == "200"@
    &&& i.rotation@ == "180"@
    &&& i.horizontal_flip@ == "false"@
    &&& i.vertical_flip@ == "false"@
}

impl Default for ImageSettings {
    /// The default image record: width 200, height 200, rotation 180,
    /// and both flips off.
    fn default() -> (r: ImageSettings)
        ensures
            is_default_image_settings(r),
    {
        ImageSettings {
            width: "200",
            height: "200",
            rotation: "180",
            horizontal_flip: "false",
            vertical_flip: "false",
        }
    }
}

impl PartialEq for ImageSettings {
    fn eq(&self, other: &ImageSettings) -> (r: bool) {
        str_eq(self.width, other.width) && str_eq(self.height, other.height)
            && str_eq(self.rotation, other.rotation)
            && str_eq(self.horizontal_flip, other.horizontal_flip)
            && str_eq(self.vertical_flip, other.vertical_flip)
    }
}

impl vstd::std_specs::cmp::PartialEqSpecImpl for ImageSettings {
    open spec fn obeys_eq_spec() -> bool {
        true
    }

    open spec fn eq_spec(&self, other: &ImageSettings) -> bool {
        &&& self.width@ == other.width@
        &&& self.height@ == other.height@
        &&& self.rotation@ == other.rotation@
        &&& self.horizontal_flip@ == other.horizontal_flip@
        &&& self.vertical_flip@ == other.vertical_flip@
    }
}

/// Default construction is deterministic: any two records with the default
/// image values are equal under `==`.
pub proof fn lemma_default_image_settings_unique(a: ImageSettings, b: ImageSettings)
    requires
        is_default_image_settings(a),
        is_default_image_settings(b),
    ensures
        a.eq_spec(&b),
{
}

/// Two image records compare equal exactly when every field matches;
/// a difference in any single field makes them unequal.
pub proof fn lemma_image_settings_eq_is_field_eq(a: ImageSettings, b: ImageSettings)
    ensures
        a.eq_spec(&b) <==> {
            &&& a.width@ == b.width@
            &&& a.height@ == b.height@
            &&& a.rotation@ == b.rotation@
            &&& a.horizontal_flip@ == b.horizontal_flip@
            &&& a.vertical_flip@ == b.vertical_flip@
        },
{
}

} // verus!
