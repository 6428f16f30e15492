use vstd::prelude::*;

verus! {

/// The platform identity of a window, as handed over by the windowing backend.
#[derive(Clone, Copy, Debug, PartialEq, Eq, Structural)]
pub enum NativeHandle {
    /// A Win32 window handle (`HWND`).
    Win32 { hwnd: isize },
    /// The backend could not hand out a handle for the window.
    Unavailable,
    /// A backend without a native "flash window" facility.
    Other,
}

/// Which indicators flash.
#[derive(Clone, Copy, Debug, PartialEq, Eq, Structural)]
pub enum FlashStyle {
    /// The caption and the taskbar entry.
    All,
    /// The taskbar entry alone.
    TaskbarOnly,
    /// The caption and the taskbar entry, without end until stopped.
    Continuous,
}

/// One request for the user's attention.
///
/// `count == 0` asks to repeat until the window comes to the foreground;
/// `timeout_ms == 0` leaves the flash rate to the platform.
#[derive(Clone, Copy, Debug, PartialEq, Eq, Structural)]
pub struct AttentionRequest {
    pub target: NativeHandle,
    pub style: FlashStyle,
    pub count: u32,
    pub timeout_ms: u32,
}

#[derive(Clone, Copy, Debug, PartialEq, Eq, Structural)]
pub enum AttentionError {
    /// The handle does not name a window the platform accepts.
    InvalidHandle,
    /// The backend has no attention facility.
    Unsupported,
}

/// The arguments of one native `FlashWindowEx` call: the window and the
/// `FLASHW_*` indicator flags, the repeat count and the flash interval.
#[derive(Clone, Copy, Debug, PartialEq, Eq, Structural)]
pub struct FlashCall {
    pub hwnd: isize,
    /// `FLASHW_CAPTION`
    pub caption: bool,
    /// `FLASHW_TRAY`
    pub tray: bool,
    /// `FLASHW_TIMER`
    pub continuous: bool,
    /// `FLASHW_TIMERNOFG`
    pub until_foreground: bool,
    pub count: u32,
    pub timeout_ms: u32,
}

impl AttentionRequest {
    /// The native call that carries out this request on the window `hwnd`.
    pub open spec fn call_on(self, hwnd: isize) -> FlashCall {
        FlashCall {
            hwnd,
            caption: !(self.style is TaskbarOnly),
            tray: true,
            continuous: self.style is Continuous,
            until_foreground: self.count == 0,
            count: self.count,
            timeout_ms: self.timeout_ms,
        }
    }

    /// What `native_call` returns: the call for a live Win32 handle, else the
    /// reason why no call can be made.
    pub open spec fn planned(self) -> Result<FlashCall, AttentionError> {
        match self.target {
            NativeHandle::Win32 { hwnd } => if hwnd == 0 {
                Err(AttentionError::InvalidHandle)
            } else {
                Ok(self.call_on(hwnd))
            },
            NativeHandle::Unavailable => Err(AttentionError::InvalidHandle),
            NativeHandle::Other => Err(AttentionError::Unsupported),
        }
    }

    /// Turns the request into exactly one native flash call. The repeat
    /// count and the interval pass through unchanged; a count of zero also
    /// asks to flash until the window comes to the foreground.
    pub fn native_call(&self) -> (r: Result<FlashCall, AttentionError>)
        ensures
            r == self.planned(),
            r matches Ok(c) ==> c.count == self.count && c.timeout_ms == self.timeout_ms,
            r matches Ok(c) ==> (c.until_foreground <==> self.count == 0),
    {
        match self.target {
            NativeHandle::Win32 { hwnd } => {
                if hwnd == 0 {
                    Err(AttentionError::InvalidHandle)
                } else {
                    let caption = match self.style {
                        FlashStyle::TaskbarOnly => false,
                        _ => true,
                    };
                    let continuous = match self.style {
                        FlashStyle::Continuous => true,
                        _ => false,
                    };
                    Ok(
                        FlashCall {
                            hwnd,
                            caption,
                            tray: true,
                            continuous,
                            until_foreground: self.count == 0,
                            count: self.count,
                            timeout_ms: self.timeout_ms,
                        },
                    )
                }
            },
            NativeHandle::Unavailable => Err(AttentionError::InvalidHandle),
            NativeHandle::Other => Err(AttentionError::Unsupported),
        }
    }
}

} // verus!
