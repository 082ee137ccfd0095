use vstd::prelude::*;

verus! {

/// When frames are handed to the display: `Fifo` waits for the vertical
/// blank (vsync on), `Immediate` does not.
#[derive(Debug, Clone, Copy, PartialEq, Eq, Structural)]
pub enum PresentMode {
    Fifo,
    Immediate,
}

/// The present mode a vsync flag asks for.
pub open spec fn present_mode_for(vsync: bool) -> PresentMode {
    if vsync {
        PresentMode::Fifo
    } else {
        PresentMode::Immediate
    }
}

/// One pixel format the surface offers, with whether it is an sRGB format.
/// The shell fills these from the surface's capabilities.
#[derive(Debug, Clone, Copy, PartialEq, Eq, Structural)]
pub struct FormatOption<F> {
    pub format: F,
    pub is_srgb: bool,
}

/// The negotiated configuration of the presentation surface.
#[derive(Debug, Clone, Copy, PartialEq, Eq, Structural)]
pub struct SurfaceConfig {
    pub width: u32,
    pub height: u32,
    pub present_mode: PresentMode,
}

/// True when position `i` holds the first sRGB format of the list.
pub open spec fn first_srgb_at<F>(formats: Seq<FormatOption<F>>, i: int) -> bool {
    &&& 0 <= i < formats.len()
    &&& formats[i].is_srgb
    &&& forall|k: int| 0 <= k < i ==> !(#[trigger] formats[k]).is_srgb
}

/// Owner of the presentation surface's negotiated pixel format and its
/// configuration. The surface object itself, frame acquisition and
/// presentation belong to the shell; this core tracks and updates what the
/// surface is configured to, and decides when a resize takes effect.
pub struct SurfaceManager<F> {
    config: SurfaceConfig,
    format: F,
}

impl<F: Copy> SurfaceManager<F> {
    /// The current configuration.
    pub closed spec fn spec_config(&self) -> SurfaceConfig {
        self.config
    }

    /// The negotiated format.
    pub closed spec fn spec_format(&self) -> F {
        self.format
    }

    /// Negotiate a surface over the formats the surface offers: the first
    /// sRGB-capable format when there is one, else the first format. The
    /// configuration takes the window's pixel dimensions and FIFO
    /// presentation exactly when vsync is requested.
    pub fn new(formats: &Vec<FormatOption<F>>, width: u32, height: u32, vsync: bool) -> (m:
        SurfaceManager<F>)
        requires
            formats@.len() > 0,
        ensures
            m.spec_config() == (SurfaceConfig { width, height, present_mode: present_mode_for(vsync) }),
            forall|i: int| first_srgb_at(formats@, i) ==> m.spec_format() == formats@[i].format,
            (forall|i: int| 0 <= i < formats@.len() ==> !(#[trigger] formats@[i]).is_srgb)
                ==> m.spec_format() == formats@[0].format,
    {
        let mut chosen: F = formats[0].format;
        let mut found: bool = false;
        let mut i: usize = 0;
        while i < formats.len()
            invariant
                i <= formats@.len(),
                formats@.len() > 0,
                !found ==> forall|k: int| 0 <= k < i ==> !(#[trigger] formats@[k]).is_srgb,
                !found ==> chosen == formats@[0].format,
                found ==> exists|k: int| first_srgb_at(formats@, k) && chosen == formats@[k].format,
            decreases formats@.len() - i,
        {
            if !found && formats[i].is_srgb {
                chosen = formats[i].format;
                found = true;
                proof {
                    assert(first_srgb_at(formats@, i as int));
                }
            }
            i = i + 1;
        }
        let present_mode = if vsync {
            PresentMode::Fifo
        } else {
            PresentMode::Immediate
        };
        SurfaceManager { config: SurfaceConfig { width, height, present_mode }, format: chosen }
    }

    /// Resize the surface. A request with either dimension zero (a transient
    /// minimized window) is ignored and leaves the configuration untouched;
    /// otherwise the new dimensions take effect and the shell must
    /// reconfigure the surface, which the returned flag signals.
    pub fn resize(&mut self, width: u32, height: u32) -> (changed: bool)
        ensures
            changed == (width != 0 && height != 0),
            changed ==> final(self).spec_config() == (SurfaceConfig {
                width,
                height,
                present_mode: old(self).spec_config().present_mode,
            }) && final(self).spec_format() == old(self).spec_format(),
            !changed ==> *final(self) == *old(self),
    {
        if width == 0 || height == 0 {
            return false;
        }
        self.config.width = width;
        self.config.height = height;
        true
    }

    /// The negotiated format.
    pub fn format(&self) -> (r: F)
        ensures
            r == self.spec_format(),
    {
        self.format
    }

    /// The current configuration.
    pub fn config(&self) -> (r: &SurfaceConfig)
        ensures
            *r == self.spec_config(),
    {
        &self.config
    }
}

} // verus!
