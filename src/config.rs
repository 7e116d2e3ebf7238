//! Command-line options and the settings derived from them.
use vstd::prelude::*;

verus! {

/// Options given on the command line.
#[derive(Debug, Clone)]
pub struct Args {
    /// Path of the image to show; none to show a screenshot of all screens.
    pub image_path: Option<String>,
    /// Open the window full screen.
    pub fullscreen: bool,
    /// Capture a screenshot of all monitors.
    pub capture_screenshot: bool,
    /// Keep the view as it is when the window is resized.
    pub disable_image_centering_on_window_resize: bool,
}

/// Settings of a viewer session.
#[derive(Debug, Default, Clone, Copy, PartialEq, Eq, Structural)]
pub struct AppConfig {
    pub fullscreen: bool,
    pub center_image_on_resize: bool,
}

impl From<Args> for AppConfig {
    fn from(value: Args) -> (r: Self) {
        AppConfig {
            fullscreen: value.fullscreen,
            center_image_on_resize: !value.disable_image_centering_on_window_resize,
        }
    }
}

impl vstd::std_specs::convert::FromSpecImpl<Args> for AppConfig {
    open spec fn obeys_from_spec() -> bool {
        true
    }

    open spec fn from_spec(v: Args) -> AppConfig {
        AppConfig {
            fullscreen: v.fullscreen,
            center_image_on_resize: !v.disable_image_centering_on_window_resize,
        }
    }
}

/// Where the image to show comes from.
#[derive(Debug, Clone, PartialEq, Eq)]
pub enum ImageSource {
    /// An image file at this path.
    File(String),
    /// A screenshot of all monitors.
    Screenshot,
}

/// Neither an image path nor a screenshot was asked for.
#[derive(Debug, Clone, Copy, PartialEq, Eq, Structural)]
pub struct NoImageSource;

impl NoImageSource {
    /// What to tell the user.
    pub fn message(&self) -> (r: &'static str)
        ensures
            r@ == "Provide image path or use --capture-screenshot flag."@,
    {
        "Provide image path or use --capture-screenshot flag."
    }
}

/// The image source the options ask for: the path when one is given,
/// otherwise a screenshot when that flag is set.
pub fn image_source(args: &Args) -> (r: Result<ImageSource, NoImageSource>)
    ensures
        match args.image_path {
            Some(p) => r matches Ok(ImageSource::File(q)) && q@ == p@,
            None => if args.capture_screenshot {
                r == Ok::<ImageSource, NoImageSource>(ImageSource::Screenshot)
            } else {
                r == Err::<ImageSource, NoImageSource>(NoImageSource)
            },
        },
{
    match &args.image_path {
        Some(path) => Ok(ImageSource::File(path.clone())),
        None => {
            if args.capture_screenshot {
                Ok(ImageSource::Screenshot)
            } else {
                Err(NoImageSource)
            }
        },
    }
}

} // verus!
