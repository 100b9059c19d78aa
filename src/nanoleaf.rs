use vstd::prelude::*;
use vstd::string::*;

verus! {

/// Kind of a panel, as the device reports it by a numeric code.
#[derive(PartialEq, Eq, Structural, Clone, Copy, Debug)]
pub enum ShapeType {
    Hexagon,
    Triangle,
    MiniTriangle,
    ShapesController,
}

pub open spec fn shape_code(s: ShapeType) -> u8 {
    match s {
        ShapeType::Hexagon => 7,
        ShapeType::Triangle => 8,
        ShapeType::MiniTriangle => 9,
        ShapeType::ShapesController => 12,
    }
}

impl ShapeType {
    /// The device's numeric code for this shape.
    pub fn code(&self) -> (r: u8)
        ensures
            r == shape_code(*self),
    {
        match self {
            ShapeType::Hexagon => 7,
            ShapeType::Triangle => 8,
            ShapeType::MiniTriangle => 9,
            ShapeType::ShapesController => 12,
        }
    }

    /// The shape with the given numeric code, if any.
    pub fn from_code(c: u8) -> (r: Option<ShapeType>)
        ensures
            r matches Some(s) ==> shape_code(s) == c,
            r is None ==> (forall|s: ShapeType| shape_code(s) != c),
    {
        if c == 7 {
            Some(ShapeType::Hexagon)
        } else if c == 8 {
            Some(ShapeType::Triangle)
        } else if c == 9 {
            Some(ShapeType::MiniTriangle)
        } else if c == 12 {
            Some(ShapeType::ShapesController)
        } else {
            proof {
                assert forall|s: ShapeType| shape_code(s) != c by {
                    match s {
                        ShapeType::Hexagon => {},
                        ShapeType::Triangle => {},
                        ShapeType::MiniTriangle => {},
                        ShapeType::ShapesController => {},
                    }
                }
            }
            None
        }
    }
}

/// The effects a device offers and the one selected.
pub struct Effects {
    pub effects_list: Vec<String>,
    pub select: String,
}

/// A colour as hue, saturation and brightness.
#[derive(PartialEq, Eq, Structural, Clone, Copy, Debug)]
pub struct HSB {
    pub hue: u8,
    pub saturation: u8,
    pub brightness: u8,
}

#[derive(PartialEq, Eq, Structural, Clone, Copy, Debug)]
pub enum ColorType {
    HSB,
}

/// How an effect animates its palette.
#[derive(PartialEq, Eq, Structural, Clone, Copy, Debug)]
pub enum AnimType {
    Solid,
    Static,
    Wheel,
    ExtControl,
    Random,
    Flow,
    Fade,
    Highlight,
    Custom,
    Plugin,
}

/// An effect the device plays.
pub enum EffectCommand {
    /// Plays the palette for `duration` seconds, then returns to the prior effect.
    DisplayTemp { duration: i32, anim_type: AnimType, palette: Vec<HSB>, color_type: ColorType },
}

/// Body of a write to the device's effects.
pub struct WriteCommand {
    pub write: EffectCommand,
}

/// Seconds that the alert effect lasts.
pub const ALERT_SECS: i32 = 5;

/// Colour that the alert effect shows.
pub open spec fn alert_color() -> HSB {
    HSB { hue: 10, saturation: 100, brightness: 100 }
}

/// The alert: a solid, momentary display of the alert colour.
pub open spec fn is_alert_command(c: WriteCommand) -> bool {
    match c.write {
        EffectCommand::DisplayTemp { duration, anim_type, palette, color_type } => {
            &&& duration == ALERT_SECS
            &&& anim_type == AnimType::Solid
            &&& palette@ == seq![alert_color()]
            &&& color_type == ColorType::HSB
        },
    }
}

/// The command that raises one alert on the device.
pub fn alert_command() -> (r: WriteCommand)
    ensures
        is_alert_command(r),
{
    let palette = vec![HSB { hue: 10, saturation: 100, brightness: 100 }];
    assert(palette@ =~= seq![alert_color()]);
    WriteCommand {
        write: EffectCommand::DisplayTemp {
            duration: ALERT_SECS,
            anim_type: AnimType::Solid,
            palette,
            color_type: ColorType::HSB,
        },
    }
}

/// Address of a resource of the device: the base URL, then the key, then `suffix`.
pub open spec fn device_url(base: Seq<char>, key: Seq<char>, suffix: Seq<char>) -> Seq<char> {
    base + "/"@ + key + suffix
}

/// Where a device is reached and the key that authorises the calls.
pub struct NanoleafClient {
    key: String,
    base_url: String,
}

impl NanoleafClient {
    pub closed spec fn key_view(&self) -> Seq<char> {
        self.key@
    }

    pub closed spec fn base_view(&self) -> Seq<char> {
        self.base_url@
    }

    pub fn new(key: &str, base_url: &str) -> (r: NanoleafClient)
        ensures
            r.key_view() == key@,
            r.base_view() == base_url@,
    {
        NanoleafClient { key: key.to_owned(), base_url: base_url.to_owned() }
    }

    fn url_with(&self, suffix: &str) -> (r: String)
        ensures
            r@ == device_url(self.base_view(), self.key_view(), suffix@),
    {
        let s = self.base_url.as_str().to_owned();
        let s = s.concat("/");
        let s = s.concat(self.key.as_str());
        s.concat(suffix)
    }

    /// Address of the device's description.
    pub fn info_url(&self) -> (r: String)
        ensures
            r@ == device_url(self.base_view(), self.key_view(), ""@),
    {
        self.url_with("")
    }

    /// Address to which effect commands are written.
    pub fn effects_url(&self) -> (r: String)
        ensures
            r@ == device_url(self.base_view(), self.key_view(), "/effects"@),
    {
        self.url_with("/effects")
    }

    /// Address of the selected effect's name.
    pub fn effect_select_url(&self) -> (r: String)
        ensures
            r@ == device_url(self.base_view(), self.key_view(), "/effects/select"@),
    {
        self.url_with("/effects/select")
    }

    /// Address of the on/off state.
    pub fn state_url(&self) -> (r: String)
        ensures
            r@ == device_url(self.base_view(), self.key_view(), "/state"@),
    {
        self.url_with("/state")
    }
}

/// Something that can raise one alert each time it is asked.
pub trait Notification {
    fn notify(&self);
}

} // verus!
