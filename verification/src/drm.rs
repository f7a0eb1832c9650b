//! Plain-data model of the kernel display object namespace: typed object
//! ids, enumeration results, mode timings and the atomic change builder.
//!
//! Every ioctl of the real backend is performed outside this crate; the
//! types here carry exactly the values those calls produce or consume.

use vstd::prelude::*;

verus! {

/// Client capability that opts into atomic modesetting.
pub const DRM_CLIENT_CAP_ATOMIC: u64 = 3;

/// Commit flag: request a completion event for the flip.
pub const DRM_MODE_PAGE_FLIP_EVENT: u32 = 0x1;

/// Commit flag: only test the configuration, apply nothing.
pub const DRM_MODE_ATOMIC_TEST_ONLY: u32 = 0x100;

/// Commit flag: do not block until the commit has been applied.
pub const DRM_MODE_ATOMIC_NONBLOCK: u32 = 0x200;

/// Commit flag: the commit may perform a full modeset.
pub const DRM_MODE_ATOMIC_ALLOW_MODESET: u32 = 0x400;

/// Kernel object id of a display timing generator.
#[derive(Copy, Clone, Debug, PartialEq, Eq, Structural, Hash)]
pub struct DrmCrtc(pub u32);

/// Kernel object id of a physical output port.
#[derive(Copy, Clone, Debug, PartialEq, Eq, Structural, Hash)]
pub struct DrmConnector(pub u32);

/// Kernel object id of an encoder block between a crtc and a connector.
#[derive(Copy, Clone, Debug, PartialEq, Eq, Structural, Hash)]
pub struct DrmEncoder(pub u32);

/// Kernel object id of a mode object.
#[derive(Copy, Clone, Debug, PartialEq, Eq, Structural, Hash)]
pub struct DrmMode(pub u32);

/// Kernel object id of a property definition.
#[derive(Copy, Clone, Debug, PartialEq, Eq, Structural, Hash)]
pub struct DrmProperty(pub u32);

/// Kernel object id of a registered framebuffer.
#[derive(Copy, Clone, Debug, PartialEq, Eq, Structural, Hash)]
pub struct DrmFb(pub u32);

/// Kernel object id of a property blob.
#[derive(Copy, Clone, Debug, PartialEq, Eq, Structural, Hash)]
pub struct DrmBlob(pub u32);

/// Kernel object id of a scanout plane.
#[derive(Copy, Clone, Debug, PartialEq, Eq, Structural, Hash)]
pub struct DrmPlane(pub u32);

/// Common interface of the typed kernel object ids.  Id 0 is the
/// distinguished "none" value of every kind.
pub trait DrmObject {
    /// The raw id as a mathematical value.
    spec fn spec_id(&self) -> u32;

    /// The raw kernel id.
    fn id(&self) -> (r: u32)
        ensures
            r == self.spec_id(),
    ;

    /// True iff the id names an actual object.
    fn is_some(&self) -> (r: bool)
        ensures
            r == (self.spec_id() != 0),
    ;

    /// True iff the id is the distinguished "none" value.
    fn is_none(&self) -> (r: bool)
        ensures
            r == (self.spec_id() == 0),
    ;
}

impl DrmObject for DrmCrtc {
    open spec fn spec_id(&self) -> u32 {
        self.0
    }

    fn id(&self) -> u32 {
        self.0
    }

    fn is_some(&self) -> bool {
        self.0 != 0
    }

    fn is_none(&self) -> bool {
        self.0 == 0
    }
}

impl DrmObject for DrmConnector {
    open spec fn spec_id(&self) -> u32 {
        self.0
    }

    fn id(&self) -> u32 {
        self.0
    }

    fn is_some(&self) -> bool {
        self.0 != 0
    }

    fn is_none(&self) -> bool {
        self.0 == 0
    }
}

impl DrmObject for DrmEncoder {
    open spec fn spec_id(&self) -> u32 {
        self.0
    }

    fn id(&self) -> u32 {
        self.0
    }

    fn is_some(&self) -> bool {
        self.0 != 0
    }

    fn is_none(&self) -> bool {
        self.0 == 0
    }
}

impl DrmObject for DrmMode {
    open spec fn spec_id(&self) -> u32 {
        self.0
    }

    fn id(&self) -> u32 {
        self.0
    }

    fn is_some(&self) -> bool {
        self.0 != 0
    }

    fn is_none(&self) -> bool {
        self.0 == 0
    }
}

impl DrmObject for DrmProperty {
    open spec fn spec_id(&self) -> u32 {
        self.0
    }

    fn id(&self) -> u32 {
        self.0
    }

    fn is_some(&self) -> bool {
        self.0 != 0
    }

    fn is_none(&self) -> bool {
        self.0 == 0
    }
}

impl DrmObject for DrmFb {
    open spec fn spec_id(&self) -> u32 {
        self.0
    }

    fn id(&self) -> u32 {
        self.0
    }

    fn is_some(&self) -> bool {
        self.0 != 0
    }

    fn is_none(&self) -> bool {
        self.0 == 0
    }
}

impl DrmObject for DrmBlob {
    open spec fn spec_id(&self) -> u32 {
        self.0
    }

    fn id(&self) -> u32 {
        self.0
    }

    fn is_some(&self) -> bool {
        self.0 != 0
    }

    fn is_none(&self) -> bool {
        self.0 == 0
    }
}

impl DrmObject for DrmPlane {
    open spec fn spec_id(&self) -> u32 {
        self.0
    }

    fn id(&self) -> u32 {
        self.0
    }

    fn is_some(&self) -> bool {
        self.0 != 0
    }

    fn is_none(&self) -> bool {
        self.0 == 0
    }
}

/// Kind of a device node of the display subsystem.
#[derive(Copy, Clone, Debug, PartialEq, Eq, Structural, Hash)]
pub enum NodeType {
    Primary,
    Control,
    Render,
}

/// One property id together with its current value, as the kernel reports it.
#[derive(Copy, Clone, Debug, PartialEq, Eq, Structural)]
pub struct DrmPropertyValue {
    pub id: DrmProperty,
    pub value: u64,
}

/// Result of enumerating a device's objects.
#[derive(Clone, Debug)]
pub struct DrmCardResources {
    pub min_width: u32,
    pub max_width: u32,
    pub min_height: u32,
    pub max_height: u32,
    pub fbs: Vec<DrmFb>,
    pub crtcs: Vec<DrmCrtc>,
    pub connectors: Vec<DrmConnector>,
    pub encoders: Vec<DrmEncoder>,
}

/// Result of querying one plane.
#[derive(Clone, Debug)]
pub struct DrmPlaneInfo {
    pub plane_id: DrmPlane,
    pub crtc_id: DrmCrtc,
    pub fb_id: DrmFb,
    pub possible_crtcs: u32,
    pub gamma_size: u32,
    pub format_types: Vec<u32>,
}

/// Result of querying one encoder.
#[derive(Copy, Clone, Debug, PartialEq, Eq, Structural)]
pub struct DrmEncoderInfo {
    pub encoder_id: DrmEncoder,
    pub encoder_type: u32,
    pub crtc_id: DrmCrtc,
    pub possible_crtcs: u32,
    pub possible_clones: u32,
}

/// One mode timing, with every numeric field the kernel hands out.
#[derive(Copy, Clone, Debug, PartialEq, Eq, Structural)]
pub struct DrmModeInfo {
    pub clock: u32,
    pub hdisplay: u16,
    pub hsync_start: u16,
    pub hsync_end: u16,
    pub htotal: u16,
    pub hskew: u16,
    pub vdisplay: u16,
    pub vsync_start: u16,
    pub vsync_end: u16,
    pub vtotal: u16,
    pub vscan: u16,
    pub vrefresh: u32,
    pub flags: u32,
    pub ty: u32,
}

/// Structural equality of two mode timings: every timing field matches.
/// The kernel's mode name and type tag do not participate.
pub open spec fn spec_modes_equal(a: &DrmModeInfo, b: &DrmModeInfo) -> bool {
    &&& a.clock == b.clock
    &&& a.hdisplay == b.hdisplay
    &&& a.hsync_start == b.hsync_start
    &&& a.hsync_end == b.hsync_end
    &&& a.htotal == b.htotal
    &&& a.hskew == b.hskew
    &&& a.vdisplay == b.vdisplay
    &&& a.vsync_start == b.vsync_start
    &&& a.vsync_end == b.vsync_end
    &&& a.vtotal == b.vtotal
    &&& a.vscan == b.vscan
    &&& a.vrefresh == b.vrefresh
    &&& a.flags == b.flags
}

/// Compares two mode timings field by field, as the preserve logic and the
/// fast configuration path demand.
pub fn modes_equal(a: &DrmModeInfo, b: &DrmModeInfo) -> (r: bool)
    ensures
        r == spec_modes_equal(a, b),
{
    a.clock == b.clock && a.hdisplay == b.hdisplay && a.hsync_start == b.hsync_start
        && a.hsync_end == b.hsync_end && a.htotal == b.htotal && a.hskew == b.hskew
        && a.vdisplay == b.vdisplay && a.vsync_start == b.vsync_start
        && a.vsync_end == b.vsync_end && a.vtotal == b.vtotal && a.vscan == b.vscan
        && a.vrefresh == b.vrefresh && a.flags == b.flags
}

impl DrmModeInfo {
    /// The refresh rate in millihertz, rounded to the nearest whole value:
    /// clock kHz scaled to millihertz and divided by the pixel count of one
    /// full frame.
    pub open spec fn spec_refresh_rate_millihz(&self) -> int {
        ((self.clock as int * 1_000_000) / (self.htotal as int) + (self.vtotal as int) / 2)
            / (self.vtotal as int)
    }

    /// Computes the refresh rate in millihertz from the pixel clock and the
    /// total frame size.
    pub fn refresh_rate_millihz(&self) -> (r: u32)
        requires
            self.htotal > 0,
            self.vtotal > 0,
        ensures
            r == self.spec_refresh_rate_millihz() as u32,
    {
        let clock_millihz: u64 = self.clock as u64 * 1_000_000;
        let htotal: u64 = self.htotal as u64;
        let vtotal: u64 = self.vtotal as u64;
        (((clock_millihz / htotal) + (vtotal / 2)) / vtotal) as u32
    }
}

/// What a connector reports about its physical connection.
#[derive(Copy, Clone, Debug, PartialEq, Eq, Structural)]
pub enum ConnectorStatus {
    Connected,
    Disconnected,
    Unknown,
    Other(u32),
}

/// Kernel encoding of the connector status values.
pub open spec fn spec_connector_status_of(v: u32) -> ConnectorStatus {
    if v == 1 {
        ConnectorStatus::Connected
    } else if v == 2 {
        ConnectorStatus::Disconnected
    } else if v == 3 {
        ConnectorStatus::Unknown
    } else {
        ConnectorStatus::Other(v)
    }
}

impl ConnectorStatus {
    /// Decodes the kernel's connection field.
    pub fn from_drm(v: u32) -> (r: ConnectorStatus)
        ensures
            r == spec_connector_status_of(v),
    {
        if v == 1 {
            ConnectorStatus::Connected
        } else if v == 2 {
            ConnectorStatus::Disconnected
        } else if v == 3 {
            ConnectorStatus::Unknown
        } else {
            ConnectorStatus::Other(v)
        }
    }
}

/// Physical kind of a connector.
#[derive(Copy, Clone, Debug, PartialEq, Eq, Structural)]
pub enum ConnectorType {
    Unknown(u32),
    Vga,
    DviI,
    DviD,
    DviA,
    Composite,
    SVideo,
    Lvds,
    Component,
    NinePinDin,
    DisplayPort,
    HdmiA,
    HdmiB,
    Tv,
    EDp,
    Virtual,
    Dsi,
    Dpi,
    Writeback,
    Spi,
    Usb,
    EmbeddedWindow,
}

/// The connector type a given kernel encoding decodes to.
pub open spec fn spec_connector_type_of(v: u32) -> ConnectorType {
    if v == 1 {
        ConnectorType::Vga
    } else if v == 2 {
        ConnectorType::DviI
    } else if v == 3 {
        ConnectorType::DviD
    } else if v == 4 {
        ConnectorType::DviA
    } else if v == 5 {
        ConnectorType::Composite
    } else if v == 6 {
        ConnectorType::SVideo
    } else if v == 7 {
        ConnectorType::Lvds
    } else if v == 8 {
        ConnectorType::Component
    } else if v == 9 {
        ConnectorType::NinePinDin
    } else if v == 10 {
        ConnectorType::DisplayPort
    } else if v == 11 {
        ConnectorType::HdmiA
    } else if v == 12 {
        ConnectorType::HdmiB
    } else if v == 13 {
        ConnectorType::Tv
    } else if v == 14 {
        ConnectorType::EDp
    } else if v == 15 {
        ConnectorType::Virtual
    } else if v == 16 {
        ConnectorType::Dsi
    } else if v == 17 {
        ConnectorType::Dpi
    } else if v == 18 {
        ConnectorType::Writeback
    } else if v == 19 {
        ConnectorType::Spi
    } else if v == 20 {
        ConnectorType::Usb
    } else {
        ConnectorType::Unknown(v)
    }
}

/// The kernel encoding of a connector type.
pub open spec fn spec_connector_type_to_drm(t: ConnectorType) -> u32 {
    match t {
        ConnectorType::Unknown(n) => n,
        ConnectorType::Vga => 1,
        ConnectorType::DviI => 2,
        ConnectorType::DviD => 3,
        ConnectorType::DviA => 4,
        ConnectorType::Composite => 5,
        ConnectorType::SVideo => 6,
        ConnectorType::Lvds => 7,
        ConnectorType::Component => 8,
        ConnectorType::NinePinDin => 9,
        ConnectorType::DisplayPort => 10,
        ConnectorType::HdmiA => 11,
        ConnectorType::HdmiB => 12,
        ConnectorType::Tv => 13,
        ConnectorType::EDp => 14,
        ConnectorType::Virtual => 15,
        ConnectorType::Dsi => 16,
        ConnectorType::Dpi => 17,
        ConnectorType::Writeback => 18,
        ConnectorType::Spi => 19,
        ConnectorType::Usb => 20,
        ConnectorType::EmbeddedWindow => 0,
    }
}

impl ConnectorType {
    /// Decodes the kernel's connector type field.
    pub fn from_drm(v: u32) -> (r: ConnectorType)
        ensures
            r == spec_connector_type_of(v),
    {
        if v == 1 {
            ConnectorType::Vga
        } else if v == 2 {
            ConnectorType::DviI
        } else if v == 3 {
            ConnectorType::DviD
        } else if v == 4 {
            ConnectorType::DviA
        } else if v == 5 {
            ConnectorType::Composite
        } else if v == 6 {
            ConnectorType::SVideo
        } else if v == 7 {
            ConnectorType::Lvds
        } else if v == 8 {
            ConnectorType::Component
        } else if v == 9 {
            ConnectorType::NinePinDin
        } else if v == 10 {
            ConnectorType::DisplayPort
        } else if v == 11 {
            ConnectorType::HdmiA
        } else if v == 12 {
            ConnectorType::HdmiB
        } else if v == 13 {
            ConnectorType::Tv
        } else if v == 14 {
            ConnectorType::EDp
        } else if v == 15 {
            ConnectorType::Virtual
        } else if v == 16 {
            ConnectorType::Dsi
        } else if v == 17 {
            ConnectorType::Dpi
        } else if v == 18 {
            ConnectorType::Writeback
        } else if v == 19 {
            ConnectorType::Spi
        } else if v == 20 {
            ConnectorType::Usb
        } else {
            ConnectorType::Unknown(v)
        }
    }

    /// Encodes the connector type back into the kernel's representation.
    pub fn to_drm(self) -> (r: u32)
        ensures
            r == spec_connector_type_to_drm(self),
    {
        match self {
            ConnectorType::Unknown(n) => n,
            ConnectorType::Vga => 1,
            ConnectorType::DviI => 2,
            ConnectorType::DviD => 3,
            ConnectorType::DviA => 4,
            ConnectorType::Composite => 5,
            ConnectorType::SVideo => 6,
            ConnectorType::Lvds => 7,
            ConnectorType::Component => 8,
            ConnectorType::NinePinDin => 9,
            ConnectorType::DisplayPort => 10,
            ConnectorType::HdmiA => 11,
            ConnectorType::HdmiB => 12,
            ConnectorType::Tv => 13,
            ConnectorType::EDp => 14,
            ConnectorType::Virtual => 15,
            ConnectorType::Dsi => 16,
            ConnectorType::Dpi => 17,
            ConnectorType::Writeback => 18,
            ConnectorType::Spi => 19,
            ConnectorType::Usb => 20,
            ConnectorType::EmbeddedWindow => 0,
        }
    }

    /// The stable index this type carries in the configuration interface.
    /// The numbering matches the decode table, with unknown types at 0 and
    /// embedded windows at the end.
    pub fn to_config(self) -> (r: u32)
        ensures
            (self matches ConnectorType::Unknown(_)) ==> r == 0,
            self == ConnectorType::EmbeddedWindow ==> r == 21,
            !(self matches ConnectorType::Unknown(_)) && self != ConnectorType::EmbeddedWindow
                ==> r == spec_connector_type_to_drm(self),
    {
        match self {
            ConnectorType::Unknown(_) => 0,
            ConnectorType::Vga => 1,
            ConnectorType::DviI => 2,
            ConnectorType::DviD => 3,
            ConnectorType::DviA => 4,
            ConnectorType::Composite => 5,
            ConnectorType::SVideo => 6,
            ConnectorType::Lvds => 7,
            ConnectorType::Component => 8,
            ConnectorType::NinePinDin => 9,
            ConnectorType::DisplayPort => 10,
            ConnectorType::HdmiA => 11,
            ConnectorType::HdmiB => 12,
            ConnectorType::Tv => 13,
            ConnectorType::EDp => 14,
            ConnectorType::Virtual => 15,
            ConnectorType::Dsi => 16,
            ConnectorType::Dpi => 17,
            ConnectorType::Writeback => 18,
            ConnectorType::Spi => 19,
            ConnectorType::Usb => 20,
            ConnectorType::EmbeddedWindow => 21,
        }
    }
}

/// Result of querying one connector.
#[derive(Clone, Debug)]
pub struct DrmConnectorInfo {
    pub encoders: Vec<DrmEncoder>,
    pub modes: Vec<DrmModeInfo>,
    pub props: Vec<DrmPropertyValue>,
    pub encoder_id: DrmEncoder,
    pub connector_id: DrmConnector,
    pub connector_type: u32,
    pub connector_type_id: u32,
    pub connection: u32,
    pub mm_width: u32,
    pub mm_height: u32,
    pub subpixel: u32,
}

/// A kernel event read back from the device file.
#[derive(Copy, Clone, Debug, PartialEq, Eq, Structural)]
pub enum DrmEvent {
    FlipComplete { tv_sec: u32, tv_usec: u32, sequence: u32, crtc_id: DrmCrtc },
}

} // verus!
