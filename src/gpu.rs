use vstd::prelude::*;

verus! {

/// A GPU buffer object, by its name on the graphics API. The library only
/// hands it around; creating, filling and reading it is the caller's work.
#[derive(Debug, Clone, Copy, PartialEq, Eq, Structural)]
pub struct Buffer {
    id: u32,
}

impl View for Buffer {
    type V = u32;

    /// The buffer's name.
    closed spec fn view(&self) -> u32 {
        self.id
    }
}

impl Buffer {
    /// The buffer with the given name.
    pub fn from_id(id: u32) -> (r: Buffer)
        ensures
            r@ == id,
    {
        Buffer { id }
    }

    pub fn id(&self) -> (r: u32)
        ensures
            r == self@,
    {
        self.id
    }
}

/// How often a buffer's contents are replaced.
#[derive(Debug, Clone, Copy, PartialEq, Eq, Structural)]
pub enum UsageFrequency {
    /// Written once, used at most a few times.
    Stream,
    /// Written once, used many times.
    Static,
    /// Written repeatedly, used many times.
    Dynamic,
}

/// Who writes a buffer's contents and what reads them.
#[derive(Debug, Clone, Copy, PartialEq, Eq, Structural)]
pub enum UsagePattern {
    /// Written by the application, read by drawing.
    Draw,
    /// Written by the GPU, read back by the application.
    Read,
    /// Written by the GPU, read by drawing.
    Copy,
}

/// A buffer usage hint.
#[derive(Debug, Clone, Copy, PartialEq, Eq, Structural)]
pub struct Usage(pub UsageFrequency, pub UsagePattern);

/// The graphics API's value for a usage hint.
pub open spec fn usage_value(u: Usage) -> u32 {
    let base: u32 = match u.0 {
        UsageFrequency::Stream => 0x88E0,
        UsageFrequency::Static => 0x88E4,
        UsageFrequency::Dynamic => 0x88E8,
    };
    let offset: u32 = match u.1 {
        UsagePattern::Draw => 0,
        UsagePattern::Read => 1,
        UsagePattern::Copy => 2,
    };
    (base + offset) as u32
}

impl Usage {
    pub fn gl_usage(&self) -> (r: u32)
        ensures
            r == usage_value(*self),
    {
        match (self.0, self.1) {
            (UsageFrequency::Stream, UsagePattern::Draw) => 0x88E0,
            (UsageFrequency::Stream, UsagePattern::Read) => 0x88E1,
            (UsageFrequency::Stream, UsagePattern::Copy) => 0x88E2,
            (UsageFrequency::Static, UsagePattern::Draw) => 0x88E4,
            (UsageFrequency::Static, UsagePattern::Read) => 0x88E5,
            (UsageFrequency::Static, UsagePattern::Copy) => 0x88E6,
            (UsageFrequency::Dynamic, UsagePattern::Draw) => 0x88E8,
            (UsageFrequency::Dynamic, UsagePattern::Read) => 0x88E9,
            (UsageFrequency::Dynamic, UsagePattern::Copy) => 0x88EA,
        }
    }

    pub fn static_draw() -> (r: Usage)
        ensures
            r == Usage(UsageFrequency::Static, UsagePattern::Draw),
    {
        Usage(UsageFrequency::Static, UsagePattern::Draw)
    }

    pub fn dynamic_read() -> (r: Usage)
        ensures
            r == Usage(UsageFrequency::Dynamic, UsagePattern::Read),
    {
        Usage(UsageFrequency::Dynamic, UsagePattern::Read)
    }

    pub fn dynamic_copy() -> (r: Usage)
        ensures
            r == Usage(UsageFrequency::Dynamic, UsagePattern::Copy),
    {
        Usage(UsageFrequency::Dynamic, UsagePattern::Copy)
    }
}

/// How a shader may use a texture bound as an image.
#[derive(Debug, Clone, Copy, PartialEq, Eq, Structural)]
pub enum TextureAccess {
    Read,
    Write,
    ReadWrite,
}

impl TextureAccess {
    /// The graphics API's value for the access mode.
    pub fn gl_access(&self) -> (r: u32)
        ensures
            r == match *self {
                TextureAccess::Read => 0x88B8u32,
                TextureAccess::Write => 0x88B9u32,
                TextureAccess::ReadWrite => 0x88BAu32,
            },
    {
        match self {
            TextureAccess::Read => 0x88B8,
            TextureAccess::Write => 0x88B9,
            TextureAccess::ReadWrite => 0x88BA,
        }
    }
}

/// A texture unit, by number.
#[derive(Debug, Clone, Copy, PartialEq, Eq, Structural)]
pub struct TextureUnit(pub u32);

/// Sampling within one texture level.
#[derive(Debug, Clone, Copy, PartialEq, Eq, Structural)]
pub enum FilterMode {
    Nearest,
    Linear,
}

impl FilterMode {
    /// The graphics API's value for the filter.
    pub fn param_value(&self) -> (r: u32)
        ensures
            r == match *self {
                FilterMode::Nearest => 0x2600u32,
                FilterMode::Linear => 0x2601u32,
            },
    {
        match self {
            FilterMode::Nearest => 0x2600,
            FilterMode::Linear => 0x2601,
        }
    }
}

/// Sampling within a level and between mipmap levels.
#[derive(Debug, Clone, Copy, PartialEq, Eq, Structural)]
pub struct MipMapFilterMode {
    pub tex_filter: FilterMode,
    pub mip_filter: FilterMode,
}

impl MipMapFilterMode {
    /// The graphics API's value for the filter pair.
    pub fn param_value(&self) -> (r: u32)
        ensures
            r == 0x2700 + (if self.tex_filter == FilterMode::Linear { 1int } else { 0 }) + (if self.mip_filter
                == FilterMode::Linear {
                2int
            } else {
                0
            }),
    {
        match (self.tex_filter, self.mip_filter) {
            (FilterMode::Nearest, FilterMode::Nearest) => 0x2700,
            (FilterMode::Linear, FilterMode::Nearest) => 0x2701,
            (FilterMode::Nearest, FilterMode::Linear) => 0x2702,
            (FilterMode::Linear, FilterMode::Linear) => 0x2703,
        }
    }
}

} // verus!
