//! The surface configuration and how it is built from the adapter's
//! reported capabilities.

use vstd::prelude::*;

verus! {

/// How many frames the presentation engine may buffer ahead of display.
pub const DESIRED_MAXIMUM_FRAME_LATENCY: u32 = 2;

/// A presentable surface format, reduced to what the configuration logic
/// reads: an identifier chosen by the caller (for example, the format's
/// position in the adapter's capability list) and whether the format is
/// color-managed (sRGB).
#[derive(Clone, Copy, PartialEq, Eq, Structural, Debug)]
pub struct Format {
    pub id: u64,
    pub srgb: bool,
}

/// How frames are scheduled for presentation.
#[derive(Clone, Copy, PartialEq, Eq, Structural, Debug)]
pub enum PresentMode {
    AutoVsync,
    AutoNoVsync,
    Fifo,
    FifoRelaxed,
    Immediate,
    Mailbox,
}

/// How the surface's alpha channel is composited with the desktop.
#[derive(Clone, Copy, PartialEq, Eq, Structural, Debug)]
pub enum AlphaMode {
    Auto,
    Opaque,
    PreMultiplied,
    PostMultiplied,
    Inherit,
}

/// The only usage this library ever asks of a surface texture: a render
/// target for the per-frame clear pass.
#[derive(Clone, Copy, PartialEq, Eq, Structural, Debug)]
pub enum SurfaceUsage {
    RenderAttachment,
}

/// Mutable record describing how the presentable surface is configured.
/// It is rebuilt once at startup and has its dimensions updated on every
/// accepted resize.
#[derive(Clone, Copy, PartialEq, Eq, Structural, Debug)]
pub struct SurfaceConfig {
    pub usage: SurfaceUsage,
    pub format: Format,
    pub width: u32,
    pub height: u32,
    pub present_mode: PresentMode,
    pub alpha_mode: AlphaMode,
    pub desired_maximum_frame_latency: u32,
}

/// What the surface supports for the chosen adapter, in the order the
/// graphics API reports it.
#[derive(Debug)]
pub struct SurfaceCaps {
    pub formats: Vec<Format>,
    pub present_modes: Vec<PresentMode>,
    pub alpha_modes: Vec<AlphaMode>,
}

/// The first sRGB format of the list, if the list has one.
pub open spec fn spec_first_srgb(formats: Seq<Format>) -> Option<Format>
    decreases formats.len(),
{
    if formats.len() == 0 {
        None
    } else if formats[0].srgb {
        Some(formats[0])
    } else {
        spec_first_srgb(formats.skip(1))
    }
}

/// The format the configuration uses: the first sRGB format if the list
/// has one, otherwise the first format of the list.
pub open spec fn spec_chosen_format(formats: Seq<Format>) -> Format
    recommends
        formats.len() > 0,
{
    match spec_first_srgb(formats) {
        Some(f) => f,
        None => formats[0],
    }
}

proof fn lemma_first_srgb_skip_step(s: Seq<Format>, i: int)
    requires
        0 <= i < s.len(),
        !s[i].srgb,
    ensures
        spec_first_srgb(s.skip(i)) == spec_first_srgb(s.skip(i + 1)),
{
    assert(s.skip(i)[0] == s[i]);
    assert(s.skip(i).skip(1) =~= s.skip(i + 1));
}

/// Select the surface format: the first color-managed (sRGB) format when
/// one is available, otherwise the first supported format.
pub fn choose_format(formats: &Vec<Format>) -> (f: Format)
    requires
        formats@.len() > 0,
    ensures
        f == spec_chosen_format(formats@),
{
    let ghost s = formats@;
    proof {
        assert(s.skip(0) =~= s);
    }
    let mut i: usize = 0;
    while i < formats.len()
        invariant
            formats@ == s,
            s.len() > 0,
            0 <= i <= s.len(),
            spec_first_srgb(s) == spec_first_srgb(s.skip(i as int)),
        decreases s.len() - i,
    {
        if formats[i].srgb {
            proof {
                assert(s.skip(i as int)[0] == s[i as int]);
                assert(spec_first_srgb(s.skip(i as int)) == Some(s[i as int]));
            }
            return formats[i];
        }
        proof {
            lemma_first_srgb_skip_step(s, i as int);
        }
        i = i + 1;
    }
    proof {
        assert(s.skip(s.len() as int) =~= Seq::<Format>::empty());
        assert(spec_first_srgb(s) is None);
    }
    formats[0]
}

/// The configuration built at startup: render-target usage, the chosen
/// format, the window's current size, the first supported present mode,
/// the first supported alpha mode, and the fixed frame-latency bound.
pub open spec fn spec_initial_config(
    width: u32,
    height: u32,
    formats: Seq<Format>,
    present_modes: Seq<PresentMode>,
    alpha_modes: Seq<AlphaMode>,
) -> SurfaceConfig
    recommends
        formats.len() > 0,
        present_modes.len() > 0,
        alpha_modes.len() > 0,
{
    SurfaceConfig {
        usage: SurfaceUsage::RenderAttachment,
        format: spec_chosen_format(formats),
        width: width,
        height: height,
        present_mode: present_modes[0],
        alpha_mode: alpha_modes[0],
        desired_maximum_frame_latency: DESIRED_MAXIMUM_FRAME_LATENCY,
    }
}

/// Build the initial surface configuration from the window's current size
/// and the capabilities the surface reports for the chosen adapter.
pub fn build_config(width: u32, height: u32, caps: &SurfaceCaps) -> (c: SurfaceConfig)
    requires
        caps.formats@.len() > 0,
        caps.present_modes@.len() > 0,
        caps.alpha_modes@.len() > 0,
    ensures
        c == spec_initial_config(
            width,
            height,
            caps.formats@,
            caps.present_modes@,
            caps.alpha_modes@,
        ),
{
    SurfaceConfig {
        usage: SurfaceUsage::RenderAttachment,
        format: choose_format(&caps.formats),
        width: width,
        height: height,
        present_mode: caps.present_modes[0],
        alpha_mode: caps.alpha_modes[0],
        desired_maximum_frame_latency: DESIRED_MAXIMUM_FRAME_LATENCY,
    }
}

} // verus!
