//! The lines reported for X11 protocol errors and events.

use vstd::prelude::*;

verus! {

/// The kinds of X11 protocol error that are told apart; the errors of all
/// other kinds are `Other`.
#[derive(Clone, Copy, Debug, PartialEq, Eq, Structural)]
pub enum ProtocolErrorKind {
    Access,
    Alloc,
    Atom,
    Colormap,
    Cursor,
    Drawable,
    Font,
    GContext,
    IDChoice,
    Implementation,
    Length,
    Match,
    Name,
    Pixmap,
    Request,
    Value,
    Window,
    DamageBadDamage,
    GlxBadContext,
    GlxBadContextState,
    GlxBadContextTag,
    GlxBadCurrentDrawable,
    GlxBadCurrentWindow,
    GlxBadDrawable,
    GlxBadFBConfig,
    GlxBadLargeRequest,
    GlxBadPbuffer,
    GlxBadPixmap,
    GlxBadRenderRequest,
    GlxBadWindow,
    GlxGLXBadProfileARB,
    GlxUnsupportedPrivateRequest,
    RandrBadCrtc,
    RandrBadMode,
    RandrBadOutput,
    RandrBadProvider,
    RecordBadContext,
    RenderGlyph,
    RenderGlyphSet,
    RenderPictFormat,
    RenderPictOp,
    RenderPicture,
    ShmBadSeg,
    SyncAlarm,
    SyncCounter,
    Xf86vidmodeBadClock,
    Xf86vidmodeBadHTimings,
    Xf86vidmodeBadVTimings,
    Xf86vidmodeClientNotLocal,
    Xf86vidmodeExtensionDisabled,
    Xf86vidmodeModeUnsuitable,
    Xf86vidmodeZoomLocked,
    XfixesBadRegion,
    XinputClass,
    XinputDevice,
    XinputDeviceBusy,
    XinputEvent,
    XinputMode,
    XkbKeyboard,
    XprintBadContext,
    XprintBadSequence,
    XvBadControl,
    XvBadEncoding,
    XvBadPort,
    Other,
}

/// The line reported for a protocol error of this kind.
pub open spec fn protocol_error_line(kind: ProtocolErrorKind) -> Seq<char> {
    match kind {
        ProtocolErrorKind::Access => "AccessError"@,
        ProtocolErrorKind::Alloc => "AllocError"@,
        ProtocolErrorKind::Atom => "AtomError"@,
        ProtocolErrorKind::Colormap => "ColormapError"@,
        ProtocolErrorKind::Cursor => "Cursorerror"@,
        ProtocolErrorKind::Drawable => "Drawableerror"@,
        ProtocolErrorKind::Font => "Fonterror"@,
        ProtocolErrorKind::GContext => "GContexterror"@,
        ProtocolErrorKind::IDChoice => "IDchoiceerror"@,
        ProtocolErrorKind::Implementation => "Implementationerror"@,
        ProtocolErrorKind::Length => "Lengtherror"@,
        ProtocolErrorKind::Match => "Matcherror"@,
        ProtocolErrorKind::Name => "Nameerror"@,
        ProtocolErrorKind::Pixmap => "Pixmaperror"@,
        ProtocolErrorKind::Request => "Requesterror"@,
        ProtocolErrorKind::Value => "Valueerror"@,
        ProtocolErrorKind::Window => "Windowerror"@,
        ProtocolErrorKind::DamageBadDamage => "BadDamageerror"@,
        ProtocolErrorKind::GlxBadContext => "BadContexterror"@,
        ProtocolErrorKind::GlxBadContextState => "Badcontextstateerror"@,
        ProtocolErrorKind::GlxBadContextTag => "BadContexttagerror"@,
        ProtocolErrorKind::GlxBadCurrentDrawable => "BadCurrentdrawableerror"@,
        ProtocolErrorKind::GlxBadCurrentWindow => "BadWindowerror"@,
        ProtocolErrorKind::GlxBadDrawable => "BadDamageerror"@,
        ProtocolErrorKind::GlxBadFBConfig => "BadFBconfigerror"@,
        ProtocolErrorKind::GlxBadLargeRequest => "BadLargerequesterror"@,
        ProtocolErrorKind::GlxBadPbuffer => "BadPbuffererror"@,
        ProtocolErrorKind::GlxBadPixmap => "BadPixmaperror"@,
        ProtocolErrorKind::GlxBadRenderRequest => "BadRenderRequestError"@,
        ProtocolErrorKind::GlxBadWindow => "RawWindowError"@,
        ProtocolErrorKind::GlxGLXBadProfileARB => "GLXBadProfileARBError"@,
        ProtocolErrorKind::GlxUnsupportedPrivateRequest => "UnsupportedPrivateRequestError"@,
        ProtocolErrorKind::RandrBadCrtc => "BadCrtcError"@,
        ProtocolErrorKind::RandrBadMode => "BadModeError"@,
        ProtocolErrorKind::RandrBadOutput => "BadOutputError"@,
        ProtocolErrorKind::RandrBadProvider => "BadProviderError"@,
        ProtocolErrorKind::RecordBadContext => "BadContextError"@,
        ProtocolErrorKind::RenderGlyph => "BadContextError"@,
        ProtocolErrorKind::RenderGlyphSet => "GlyphSetError"@,
        ProtocolErrorKind::RenderPictFormat => "PictFormatError"@,
        ProtocolErrorKind::RenderPictOp => "PictOpError"@,
        ProtocolErrorKind::RenderPicture => "PictureError"@,
        ProtocolErrorKind::ShmBadSeg => "BadSegError"@,
        ProtocolErrorKind::SyncAlarm => "AlarmError"@,
        ProtocolErrorKind::SyncCounter => "CounterError"@,
        ProtocolErrorKind::Xf86vidmodeBadClock => "BadClockError"@,
        ProtocolErrorKind::Xf86vidmodeBadHTimings => "BadHTimingsError"@,
        ProtocolErrorKind::Xf86vidmodeBadVTimings => "BadVTimingsError"@,
        ProtocolErrorKind::Xf86vidmodeClientNotLocal => "ClientNotLocalError"@,
        ProtocolErrorKind::Xf86vidmodeExtensionDisabled => "ExtensionDisabledError"@,
        ProtocolErrorKind::Xf86vidmodeModeUnsuitable => "ModeUnsuitableError"@,
        ProtocolErrorKind::Xf86vidmodeZoomLocked => "ZoomLockedError"@,
        ProtocolErrorKind::XfixesBadRegion => "BadRegionError"@,
        ProtocolErrorKind::XinputClass => "ClassError"@,
        ProtocolErrorKind::XinputDevice => "DeviceError"@,
        ProtocolErrorKind::XinputDeviceBusy => "DeviceBusyError"@,
        ProtocolErrorKind::XinputEvent => "EventError"@,
        ProtocolErrorKind::XinputMode => "ModeError"@,
        ProtocolErrorKind::XkbKeyboard => "KeyboardError"@,
        ProtocolErrorKind::XprintBadContext => "BadContextError"@,
        ProtocolErrorKind::XprintBadSequence => "BadSequenceError"@,
        ProtocolErrorKind::XvBadControl => "BadControlError"@,
        ProtocolErrorKind::XvBadEncoding => "BadEncodingError"@,
        ProtocolErrorKind::XvBadPort => "BadPortError"@,
        ProtocolErrorKind::Other => "umatched error"@,
    }
}

/// The line reported for a protocol error of kind `kind`.
pub fn match_protocol_error(kind: ProtocolErrorKind) -> (line: &'static str)
    ensures
        line@ == protocol_error_line(kind),
{
    match kind {
        ProtocolErrorKind::Access => "AccessError",
        ProtocolErrorKind::Alloc => "AllocError",
        ProtocolErrorKind::Atom => "AtomError",
        ProtocolErrorKind::Colormap => "ColormapError",
        ProtocolErrorKind::Cursor => "Cursorerror",
        ProtocolErrorKind::Drawable => "Drawableerror",
        ProtocolErrorKind::Font => "Fonterror",
        ProtocolErrorKind::GContext => "GContexterror",
        ProtocolErrorKind::IDChoice => "IDchoiceerror",
        ProtocolErrorKind::Implementation => "Implementationerror",
        ProtocolErrorKind::Length => "Lengtherror",
        ProtocolErrorKind::Match => "Matcherror",
        ProtocolErrorKind::Name => "Nameerror",
        ProtocolErrorKind::Pixmap => "Pixmaperror",
        ProtocolErrorKind::Request => "Requesterror",
        ProtocolErrorKind::Value => "Valueerror",
        ProtocolErrorKind::Window => "Windowerror",
        ProtocolErrorKind::DamageBadDamage => "BadDamageerror",
        ProtocolErrorKind::GlxBadContext => "BadContexterror",
        ProtocolErrorKind::GlxBadContextState => "Badcontextstateerror",
        ProtocolErrorKind::GlxBadContextTag => "BadContexttagerror",
        ProtocolErrorKind::GlxBadCurrentDrawable => "BadCurrentdrawableerror",
        ProtocolErrorKind::GlxBadCurrentWindow => "BadWindowerror",
        ProtocolErrorKind::GlxBadDrawable => "BadDamageerror",
        ProtocolErrorKind::GlxBadFBConfig => "BadFBconfigerror",
        ProtocolErrorKind::GlxBadLargeRequest => "BadLargerequesterror",
        ProtocolErrorKind::GlxBadPbuffer => "BadPbuffererror",
        ProtocolErrorKind::GlxBadPixmap => "BadPixmaperror",
        ProtocolErrorKind::GlxBadRenderRequest => "BadRenderRequestError",
        ProtocolErrorKind::GlxBadWindow => "RawWindowError",
        ProtocolErrorKind::GlxGLXBadProfileARB => "GLXBadProfileARBError",
        ProtocolErrorKind::GlxUnsupportedPrivateRequest => "UnsupportedPrivateRequestError",
        ProtocolErrorKind::RandrBadCrtc => "BadCrtcError",
        ProtocolErrorKind::RandrBadMode => "BadModeError",
        ProtocolErrorKind::RandrBadOutput => "BadOutputError",
        ProtocolErrorKind::RandrBadProvider => "BadProviderError",
        ProtocolErrorKind::RecordBadContext => "BadContextError",
        ProtocolErrorKind::RenderGlyph => "BadContextError",
        ProtocolErrorKind::RenderGlyphSet => "GlyphSetError",
        ProtocolErrorKind::RenderPictFormat => "PictFormatError",
        ProtocolErrorKind::RenderPictOp => "PictOpError",
        ProtocolErrorKind::RenderPicture => "PictureError",
        ProtocolErrorKind::ShmBadSeg => "BadSegError",
        ProtocolErrorKind::SyncAlarm => "AlarmError",
        ProtocolErrorKind::SyncCounter => "CounterError",
        ProtocolErrorKind::Xf86vidmodeBadClock => "BadClockError",
        ProtocolErrorKind::Xf86vidmodeBadHTimings => "BadHTimingsError",
        ProtocolErrorKind::Xf86vidmodeBadVTimings => "BadVTimingsError",
        ProtocolErrorKind::Xf86vidmodeClientNotLocal => "ClientNotLocalError",
        ProtocolErrorKind::Xf86vidmodeExtensionDisabled => "ExtensionDisabledError",
        ProtocolErrorKind::Xf86vidmodeModeUnsuitable => "ModeUnsuitableError",
        ProtocolErrorKind::Xf86vidmodeZoomLocked => "ZoomLockedError",
        ProtocolErrorKind::XfixesBadRegion => "BadRegionError",
        ProtocolErrorKind::XinputClass => "ClassError",
        ProtocolErrorKind::XinputDevice => "DeviceError",
        ProtocolErrorKind::XinputDeviceBusy => "DeviceBusyError",
        ProtocolErrorKind::XinputEvent => "EventError",
        ProtocolErrorKind::XinputMode => "ModeError",
        ProtocolErrorKind::XkbKeyboard => "KeyboardError",
        ProtocolErrorKind::XprintBadContext => "BadContextError",
        ProtocolErrorKind::XprintBadSequence => "BadSequenceError",
        ProtocolErrorKind::XvBadControl => "BadControlError",
        ProtocolErrorKind::XvBadEncoding => "BadEncodingError",
        ProtocolErrorKind::XvBadPort => "BadPortError",
        ProtocolErrorKind::Other => "umatched error",
    }
}

/// The kinds of X11 event that are told apart; the events of all other
/// kinds are `Other`.
#[derive(Clone, Copy, Debug, PartialEq, Eq, Structural)]
pub enum EventKind {
    Unknown,
    Error,
    ButtonPress,
    ButtonRelease,
    CirculateNotify,
    CirculateRequest,
    ClientMessage,
    ColormapNotify,
    ConfigureNotify,
    ConfigureRequest,
    CreateNotify,
    DestroyNotify,
    EnterNotify,
    Expose,
    FocusIn,
    FocusOut,
    GeGeneric,
    GraphicsExposure,
    GravityNotify,
    KeyPress,
    KeyRelease,
    KeymapNotify,
    LeaveNotify,
    MapNotify,
    MapRequest,
    MappingNotify,
    MotionNotify,
    NoExposure,
    PropertyNotify,
    ReparentNotify,
    ResizeRequest,
    SelectionClear,
    SelectionNotify,
    SelectionRequest,
    UnmapNotify,
    VisibilityNotify,
    DamageNotify,
    Dri2BufferSwapComplete,
    Dri2InvalidateBuffers,
    GlxBufferSwapComplete,
    GlxPbufferClobber,
    PresentCompleteNotify,
    PresentConfigureNotify,
    PresentGeneric,
    PresentIdleNotify,
    PresentRedirectNotify,
    RandrNotify,
    RandrScreenChangeNotify,
    ScreensaverNotify,
    ShapeNotify,
    ShmCompletion,
    SyncAlarmNotify,
    Other,
}

/// The line reported for an event of this kind.
pub open spec fn event_line(kind: EventKind) -> Seq<char> {
    match kind {
        EventKind::Unknown => "Unknown event"@,
        EventKind::Error => "Error"@,
        EventKind::ButtonPress => "Button press event"@,
        EventKind::ButtonRelease => "ButtonRelease event"@,
        EventKind::CirculateNotify => "CirculateNotify event"@,
        EventKind::CirculateRequest => "CirculateRequest event"@,
        EventKind::ClientMessage => "ClientMessage event"@,
        EventKind::ColormapNotify => "ColormapNotify event"@,
        EventKind::ConfigureNotify => "ConfigureNotify event"@,
        EventKind::ConfigureRequest => "ConfigureRequest event"@,
        EventKind::CreateNotify => "CreateNotify event"@,
        EventKind::DestroyNotify => "DestroyNotify event"@,
        EventKind::EnterNotify => "EnterNotify event"@,
        EventKind::Expose => "Expose event"@,
        EventKind::FocusIn => "FocusIn event"@,
        EventKind::FocusOut => "FocusOut event"@,
        EventKind::GeGeneric => "GeGeneric event"@,
        EventKind::GraphicsExposure => "GraphicsExposure event"@,
        EventKind::GravityNotify => "GravityNotify event"@,
        EventKind::KeyPress => "KeyPress event"@,
        EventKind::KeyRelease => "KeyRelease event"@,
        EventKind::KeymapNotify => "KeymapNotify event"@,
        EventKind::LeaveNotify => "LeaveNotify event"@,
        EventKind::MapNotify => "MapNotify event"@,
        EventKind::MapRequest => "MapRequest event"@,
        EventKind::MappingNotify => "MappingNotify event"@,
        EventKind::MotionNotify => "MotionNotify event"@,
        EventKind::NoExposure => "NoExposure event"@,
        EventKind::PropertyNotify => "PropertyNotify event"@,
        EventKind::ReparentNotify => "ReparentNotify event"@,
        EventKind::ResizeRequest => "ResizeRequest event"@,
        EventKind::SelectionClear => "SelectionClear event"@,
        EventKind::SelectionNotify => "SelectionNotify event"@,
        EventKind::SelectionRequest => "SelectionRequest event"@,
        EventKind::UnmapNotify => "UnmapNotify event"@,
        EventKind::VisibilityNotify => "VisibilityNotify event"@,
        EventKind::DamageNotify => "DamageNotify event"@,
        EventKind::Dri2BufferSwapComplete => "Dri2BufferSwapComplete event"@,
        EventKind::Dri2InvalidateBuffers => "Dri2InvalidateBuffers event"@,
        EventKind::GlxBufferSwapComplete => "GlxBufferSwapComplete event"@,
        EventKind::GlxPbufferClobber => "GlxPbufferClobber event"@,
        EventKind::PresentCompleteNotify => "PresentCompleteNotify event"@,
        EventKind::PresentConfigureNotify => "PresentCompleteNotify event"@,
        EventKind::PresentGeneric => "PresentGeneric event"@,
        EventKind::PresentIdleNotify => "PresentIdleNotify event"@,
        EventKind::PresentRedirectNotify => "PresentRedirectNotify event"@,
        EventKind::RandrNotify => "RandrNotify event"@,
        EventKind::RandrScreenChangeNotify => "RandrScreenChangeNotify event"@,
        EventKind::ScreensaverNotify => "ScreensaverNotify event"@,
        EventKind::ShapeNotify => "ShapeNotify event"@,
        EventKind::ShmCompletion => "ShmCompletion event"@,
        EventKind::SyncAlarmNotify => "SyncAlarmNotify event"@,
        EventKind::Other => "Some other event"@,
    }
}

/// The line reported for an event of kind `kind`.
pub fn match_event(kind: EventKind) -> (line: &'static str)
    ensures
        line@ == event_line(kind),
{
    match kind {
        EventKind::Unknown => "Unknown event",
        EventKind::Error => "Error",
        EventKind::ButtonPress => "Button press event",
        EventKind::ButtonRelease => "ButtonRelease event",
        EventKind::CirculateNotify => "CirculateNotify event",
        EventKind::CirculateRequest => "CirculateRequest event",
        EventKind::ClientMessage => "ClientMessage event",
        EventKind::ColormapNotify => "ColormapNotify event",
        EventKind::ConfigureNotify => "ConfigureNotify event",
        EventKind::ConfigureRequest => "ConfigureRequest event",
        EventKind::CreateNotify => "CreateNotify event",
        EventKind::DestroyNotify => "DestroyNotify event",
        EventKind::EnterNotify => "EnterNotify event",
        EventKind::Expose => "Expose event",
        EventKind::FocusIn => "FocusIn event",
        EventKind::FocusOut => "FocusOut event",
        EventKind::GeGeneric => "GeGeneric event",
        EventKind::GraphicsExposure => "GraphicsExposure event",
        EventKind::GravityNotify => "GravityNotify event",
        EventKind::KeyPress => "KeyPress event",
        EventKind::KeyRelease => "KeyRelease event",
        EventKind::KeymapNotify => "KeymapNotify event",
        EventKind::LeaveNotify => "LeaveNotify event",
        EventKind::MapNotify => "MapNotify event",
        EventKind::MapRequest => "MapRequest event",
        EventKind::MappingNotify => "MappingNotify event",
        EventKind::MotionNotify => "MotionNotify event",
        EventKind::NoExposure => "NoExposure event",
        EventKind::PropertyNotify => "PropertyNotify event",
        EventKind::ReparentNotify => "ReparentNotify event",
        EventKind::ResizeRequest => "ResizeRequest event",
        EventKind::SelectionClear => "SelectionClear event",
        EventKind::SelectionNotify => "SelectionNotify event",
        EventKind::SelectionRequest => "SelectionRequest event",
        EventKind::UnmapNotify => "UnmapNotify event",
        EventKind::VisibilityNotify => "VisibilityNotify event",
        EventKind::DamageNotify => "DamageNotify event",
        EventKind::Dri2BufferSwapComplete => "Dri2BufferSwapComplete event",
        EventKind::Dri2InvalidateBuffers => "Dri2InvalidateBuffers event",
        EventKind::GlxBufferSwapComplete => "GlxBufferSwapComplete event",
        EventKind::GlxPbufferClobber => "GlxPbufferClobber event",
        EventKind::PresentCompleteNotify => "PresentCompleteNotify event",
        EventKind::PresentConfigureNotify => "PresentCompleteNotify event",
        EventKind::PresentGeneric => "PresentGeneric event",
        EventKind::PresentIdleNotify => "PresentIdleNotify event",
        EventKind::PresentRedirectNotify => "PresentRedirectNotify event",
        EventKind::RandrNotify => "RandrNotify event",
        EventKind::RandrScreenChangeNotify => "RandrScreenChangeNotify event",
        EventKind::ScreensaverNotify => "ScreensaverNotify event",
        EventKind::ShapeNotify => "ShapeNotify event",
        EventKind::ShmCompletion => "ShmCompletion event",
        EventKind::SyncAlarmNotify => "SyncAlarmNotify event",
        EventKind::Other => "Some other event",
    }
}

/// The line for each kind of protocol error, as the tracker has always
/// printed it.
pub proof fn law_protocol_error_lines()
    ensures
        protocol_error_line(ProtocolErrorKind::Access) == "AccessError"@,
        protocol_error_line(ProtocolErrorKind::Alloc) == "AllocError"@,
        protocol_error_line(ProtocolErrorKind::Atom) == "AtomError"@,
        protocol_error_line(ProtocolErrorKind::Colormap) == "ColormapError"@,
        protocol_error_line(ProtocolErrorKind::Cursor) == "Cursorerror"@,
        protocol_error_line(ProtocolErrorKind::Drawable) == "Drawableerror"@,
        protocol_error_line(ProtocolErrorKind::Font) == "Fonterror"@,
        protocol_error_line(ProtocolErrorKind::GContext) == "GContexterror"@,
        protocol_error_line(ProtocolErrorKind::IDChoice) == "IDchoiceerror"@,
        protocol_error_line(ProtocolErrorKind::Implementation) == "Implementationerror"@,
        protocol_error_line(ProtocolErrorKind::Length) == "Lengtherror"@,
        protocol_error_line(ProtocolErrorKind::Match) == "Matcherror"@,
        protocol_error_line(ProtocolErrorKind::Name) == "Nameerror"@,
        protocol_error_line(ProtocolErrorKind::Pixmap) == "Pixmaperror"@,
        protocol_error_line(ProtocolErrorKind::Request) == "Requesterror"@,
        protocol_error_line(ProtocolErrorKind::Value) == "Valueerror"@,
        protocol_error_line(ProtocolErrorKind::Window) == "Windowerror"@,
        protocol_error_line(ProtocolErrorKind::DamageBadDamage) == "BadDamageerror"@,
        protocol_error_line(ProtocolErrorKind::GlxBadContext) == "BadContexterror"@,
        protocol_error_line(ProtocolErrorKind::GlxBadContextState) == "Badcontextstateerror"@,
        protocol_error_line(ProtocolErrorKind::GlxBadContextTag) == "BadContexttagerror"@,
        protocol_error_line(ProtocolErrorKind::GlxBadCurrentDrawable) == "BadCurrentdrawableerror"@,
        protocol_error_line(ProtocolErrorKind::GlxBadCurrentWindow) == "BadWindowerror"@,
        protocol_error_line(ProtocolErrorKind::GlxBadDrawable) == "BadDamageerror"@,
        protocol_error_line(ProtocolErrorKind::GlxBadFBConfig) == "BadFBconfigerror"@,
        protocol_error_line(ProtocolErrorKind::GlxBadLargeRequest) == "BadLargerequesterror"@,
        protocol_error_line(ProtocolErrorKind::GlxBadPbuffer) == "BadPbuffererror"@,
        protocol_error_line(ProtocolErrorKind::GlxBadPixmap) == "BadPixmaperror"@,
        protocol_error_line(ProtocolErrorKind::GlxBadRenderRequest) == "BadRenderRequestError"@,
        protocol_error_line(ProtocolErrorKind::GlxBadWindow) == "RawWindowError"@,
        protocol_error_line(ProtocolErrorKind::GlxGLXBadProfileARB) == "GLXBadProfileARBError"@,
        protocol_error_line(ProtocolErrorKind::GlxUnsupportedPrivateRequest) == "UnsupportedPrivateRequestError"@,
        protocol_error_line(ProtocolErrorKind::RandrBadCrtc) == "BadCrtcError"@,
        protocol_error_line(ProtocolErrorKind::RandrBadMode) == "BadModeError"@,
        protocol_error_line(ProtocolErrorKind::RandrBadOutput) == "BadOutputError"@,
        protocol_error_line(ProtocolErrorKind::RandrBadProvider) == "BadProviderError"@,
        protocol_error_line(ProtocolErrorKind::RecordBadContext) == "BadContextError"@,
        protocol_error_line(ProtocolErrorKind::RenderGlyph) == "BadContextError"@,
        protocol_error_line(ProtocolErrorKind::RenderGlyphSet) == "GlyphSetError"@,
        protocol_error_line(ProtocolErrorKind::RenderPictFormat) == "PictFormatError"@,
        protocol_error_line(ProtocolErrorKind::RenderPictOp) == "PictOpError"@,
        protocol_error_line(ProtocolErrorKind::RenderPicture) == "PictureError"@,
        protocol_error_line(ProtocolErrorKind::ShmBadSeg) == "BadSegError"@,
        protocol_error_line(ProtocolErrorKind::SyncAlarm) == "AlarmError"@,
        protocol_error_line(ProtocolErrorKind::SyncCounter) == "CounterError"@,
        protocol_error_line(ProtocolErrorKind::Xf86vidmodeBadClock) == "BadClockError"@,
        protocol_error_line(ProtocolErrorKind::Xf86vidmodeBadHTimings) == "BadHTimingsError"@,
        protocol_error_line(ProtocolErrorKind::Xf86vidmodeBadVTimings) == "BadVTimingsError"@,
        protocol_error_line(ProtocolErrorKind::Xf86vidmodeClientNotLocal) == "ClientNotLocalError"@,
        protocol_error_line(ProtocolErrorKind::Xf86vidmodeExtensionDisabled) == "ExtensionDisabledError"@,
        protocol_error_line(ProtocolErrorKind::Xf86vidmodeModeUnsuitable) == "ModeUnsuitableError"@,
        protocol_error_line(ProtocolErrorKind::Xf86vidmodeZoomLocked) == "ZoomLockedError"@,
        protocol_error_line(ProtocolErrorKind::XfixesBadRegion) == "BadRegionError"@,
        protocol_error_line(ProtocolErrorKind::XinputClass) == "ClassError"@,
        protocol_error_line(ProtocolErrorKind::XinputDevice) == "DeviceError"@,
        protocol_error_line(ProtocolErrorKind::XinputDeviceBusy) == "DeviceBusyError"@,
        protocol_error_line(ProtocolErrorKind::XinputEvent) == "EventError"@,
        protocol_error_line(ProtocolErrorKind::XinputMode) == "ModeError"@,
        protocol_error_line(ProtocolErrorKind::XkbKeyboard) == "KeyboardError"@,
        protocol_error_line(ProtocolErrorKind::XprintBadContext) == "BadContextError"@,
        protocol_error_line(ProtocolErrorKind::XprintBadSequence) == "BadSequenceError"@,
        protocol_error_line(ProtocolErrorKind::XvBadControl) == "BadControlError"@,
        protocol_error_line(ProtocolErrorKind::XvBadEncoding) == "BadEncodingError"@,
        protocol_error_line(ProtocolErrorKind::XvBadPort) == "BadPortError"@,
        protocol_error_line(ProtocolErrorKind::Other) == "umatched error"@,
{
}

/// The line for each kind of event: the kind's name followed by ` event`
/// (with `Button press`, and the present-configure line that reads as the
/// present-complete one), `Error` for errors and a catch-all line.
pub proof fn law_event_lines()
    ensures
        event_line(EventKind::Unknown) == "Unknown event"@,
        event_line(EventKind::Error) == "Error"@,
        event_line(EventKind::ButtonPress) == "Button press event"@,
        event_line(EventKind::ButtonRelease) == "ButtonRelease event"@,
        event_line(EventKind::CirculateNotify) == "CirculateNotify event"@,
        event_line(EventKind::CirculateRequest) == "CirculateRequest event"@,
        event_line(EventKind::ClientMessage) == "ClientMessage event"@,
        event_line(EventKind::ColormapNotify) == "ColormapNotify event"@,
        event_line(EventKind::ConfigureNotify) == "ConfigureNotify event"@,
        event_line(EventKind::ConfigureRequest) == "ConfigureRequest event"@,
        event_line(EventKind::CreateNotify) == "CreateNotify event"@,
        event_line(EventKind::DestroyNotify) == "DestroyNotify event"@,
        event_line(EventKind::EnterNotify) == "EnterNotify event"@,
        event_line(EventKind::Expose) == "Expose event"@,
        event_line(EventKind::FocusIn) == "FocusIn event"@,
        event_line(EventKind::FocusOut) == "FocusOut event"@,
        event_line(EventKind::GeGeneric) == "GeGeneric event"@,
        event_line(EventKind::GraphicsExposure) == "GraphicsExposure event"@,
        event_line(EventKind::GravityNotify) == "GravityNotify event"@,
        event_line(EventKind::KeyPress) == "KeyPress event"@,
        event_line(EventKind::KeyRelease) == "KeyRelease event"@,
        event_line(EventKind::KeymapNotify) == "KeymapNotify event"@,
        event_line(EventKind::LeaveNotify) == "LeaveNotify event"@,
        event_line(EventKind::MapNotify) == "MapNotify event"@,
        event_line(EventKind::MapRequest) == "MapRequest event"@,
        event_line(EventKind::MappingNotify) == "MappingNotify event"@,
        event_line(EventKind::MotionNotify) == "MotionNotify event"@,
        event_line(EventKind::NoExposure) == "NoExposure event"@,
        event_line(EventKind::PropertyNotify) == "PropertyNotify event"@,
        event_line(EventKind::ReparentNotify) == "ReparentNotify event"@,
        event_line(EventKind::ResizeRequest) == "ResizeRequest event"@,
        event_line(EventKind::SelectionClear) == "SelectionClear event"@,
        event_line(EventKind::SelectionNotify) == "SelectionNotify event"@,
        event_line(EventKind::SelectionRequest) == "SelectionRequest event"@,
        event_line(EventKind::UnmapNotify) == "UnmapNotify event"@,
        event_line(EventKind::VisibilityNotify) == "VisibilityNotify event"@,
        event_line(EventKind::DamageNotify) == "DamageNotify event"@,
        event_line(EventKind::Dri2BufferSwapComplete) == "Dri2BufferSwapComplete event"@,
        event_line(EventKind::Dri2InvalidateBuffers) == "Dri2InvalidateBuffers event"@,
        event_line(EventKind::GlxBufferSwapComplete) == "GlxBufferSwapComplete event"@,
        event_line(EventKind::GlxPbufferClobber) == "GlxPbufferClobber event"@,
        event_line(EventKind::PresentCompleteNotify) == "PresentCompleteNotify event"@,
        event_line(EventKind::PresentConfigureNotify) == "PresentCompleteNotify event"@,
        event_line(EventKind::PresentGeneric) == "PresentGeneric event"@,
        event_line(EventKind::PresentIdleNotify) == "PresentIdleNotify event"@,
        event_line(EventKind::PresentRedirectNotify) == "PresentRedirectNotify event"@,
        event_line(EventKind::RandrNotify) == "RandrNotify event"@,
        event_line(EventKind::RandrScreenChangeNotify) == "RandrScreenChangeNotify event"@,
        event_line(EventKind::ScreensaverNotify) == "ScreensaverNotify event"@,
        event_line(EventKind::ShapeNotify) == "ShapeNotify event"@,
        event_line(EventKind::ShmCompletion) == "ShmCompletion event"@,
        event_line(EventKind::SyncAlarmNotify) == "SyncAlarmNotify event"@,
        event_line(EventKind::Other) == "Some other event"@,
{
}


} // verus!
