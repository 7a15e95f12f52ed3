//! The operations of the graphics device, by name and number. What an
//! operation carries is drawn in floating-point numbers and is not kept here.
use vstd::prelude::*;

verus! {

/// The operations that the graphics device knows.
#[derive(Debug, Clone, Copy, PartialEq, Eq, Structural)]
pub enum GpuOpKind {
    Init,
    GetPixel,
    SetPainterColor,
    GetPainterColor,
    SetPainterStyle,
    GetPainterStyle,
    SetPainterBlendMode,
    GetPainterBlendMode,
    SetPainterFilterQuality,
    GetPainterFilterQuality,
    SetPainterHintingLevel,
    GetPainterHintingLevel,
    SetPainterAutohinting,
    GetPainterAutohinting,
    SetPainterAntialiasing,
    GetPainterAntialiasing,
    SetPainterDithering,
    GetPainterDithering,
    MesaureText,
    SetPainterTypeface,
    SetPainterTextSize,
    GetPainterTextSize,
    SetPainterTextScaleX,
    GetPainterTextScaleX,
    SetPainterTextSkewX,
    GetPainterTextSkewX,
    SetPainterTextAlign,
    GetPainterTextAlign,
    SetPainterSubpixelText,
    GetPainterSubpixelText,
    MesaureString,
    CreateObject,
    DeleteObject,
    DeleteAllObjects,
    CreateImageObject,
    CreateSurfaceObject,
    SwitchSurface,
    DrawPixel,
    DrawLine,
    DrawRect,
    DrawRoundRect,
    DrawCircle,
    DrawOval,
    DrawPoints,
    DrawText,
    DrawImage,
    DrawImageRect,
    DrawImageRectSrc,
    DrawString,
}

impl GpuOpKind {
    /// The number that selects the operation: the pixel operations from
    /// 0x10 on, those of the painter from 0x100, those on objects from 0x500,
    /// the drawing operations from 0x1000.
    pub open spec fn spec_id(self) -> u32 {
        match self {
            GpuOpKind::Init => 0x0,
            GpuOpKind::GetPixel => 0x10,
            GpuOpKind::SetPainterColor => 0x100,
            GpuOpKind::GetPainterColor => 0x101,
            GpuOpKind::SetPainterStyle => 0x102,
            GpuOpKind::GetPainterStyle => 0x103,
            GpuOpKind::SetPainterBlendMode => 0x104,
            GpuOpKind::GetPainterBlendMode => 0x105,
            GpuOpKind::SetPainterFilterQuality => 0x106,
            GpuOpKind::GetPainterFilterQuality => 0x107,
            GpuOpKind::SetPainterHintingLevel => 0x108,
            GpuOpKind::GetPainterHintingLevel => 0x109,
            GpuOpKind::SetPainterAutohinting => 0x10a,
            GpuOpKind::GetPainterAutohinting => 0x10b,
            GpuOpKind::SetPainterAntialiasing => 0x10c,
            GpuOpKind::GetPainterAntialiasing => 0x10d,
            GpuOpKind::SetPainterDithering => 0x10e,
            GpuOpKind::GetPainterDithering => 0x10f,
            GpuOpKind::MesaureText => 0x110,
            GpuOpKind::SetPainterTypeface => 0x111,
            GpuOpKind::SetPainterTextSize => 0x112,
            GpuOpKind::GetPainterTextSize => 0x113,
            GpuOpKind::SetPainterTextScaleX => 0x114,
            GpuOpKind::GetPainterTextScaleX => 0x115,
            GpuOpKind::SetPainterTextSkewX => 0x116,
            GpuOpKind::GetPainterTextSkewX => 0x117,
            GpuOpKind::SetPainterTextAlign => 0x118,
            GpuOpKind::GetPainterTextAlign => 0x119,
            GpuOpKind::SetPainterSubpixelText => 0x11a,
            GpuOpKind::GetPainterSubpixelText => 0x11b,
            GpuOpKind::MesaureString => 0x11c,
            GpuOpKind::CreateObject => 0x500,
            GpuOpKind::DeleteObject => 0x501,
            GpuOpKind::DeleteAllObjects => 0x502,
            GpuOpKind::CreateImageObject => 0x503,
            GpuOpKind::CreateSurfaceObject => 0x504,
            GpuOpKind::SwitchSurface => 0x505,
            GpuOpKind::DrawPixel => 0x1000,
            GpuOpKind::DrawLine => 0x1001,
            GpuOpKind::DrawRect => 0x1002,
            GpuOpKind::DrawRoundRect => 0x1003,
            GpuOpKind::DrawCircle => 0x1004,
            GpuOpKind::DrawOval => 0x1005,
            GpuOpKind::DrawPoints => 0x1006,
            GpuOpKind::DrawText => 0x1007,
            GpuOpKind::DrawImage => 0x1008,
            GpuOpKind::DrawImageRect => 0x1009,
            GpuOpKind::DrawImageRectSrc => 0x100a,
            GpuOpKind::DrawString => 0x100b,
        }
    }

    pub fn id(&self) -> (id: u32)
        ensures
            id == self.spec_id(),
    {
        match self {
            GpuOpKind::Init => 0x0,
            GpuOpKind::GetPixel => 0x10,
            GpuOpKind::SetPainterColor => 0x100,
            GpuOpKind::GetPainterColor => 0x101,
            GpuOpKind::SetPainterStyle => 0x102,
            GpuOpKind::GetPainterStyle => 0x103,
            GpuOpKind::SetPainterBlendMode => 0x104,
            GpuOpKind::GetPainterBlendMode => 0x105,
            GpuOpKind::SetPainterFilterQuality => 0x106,
            GpuOpKind::GetPainterFilterQuality => 0x107,
            GpuOpKind::SetPainterHintingLevel => 0x108,
            GpuOpKind::GetPainterHintingLevel => 0x109,
            GpuOpKind::SetPainterAutohinting => 0x10a,
            GpuOpKind::GetPainterAutohinting => 0x10b,
            GpuOpKind::SetPainterAntialiasing => 0x10c,
            GpuOpKind::GetPainterAntialiasing => 0x10d,
            GpuOpKind::SetPainterDithering => 0x10e,
            GpuOpKind::GetPainterDithering => 0x10f,
            GpuOpKind::MesaureText => 0x110,
            GpuOpKind::SetPainterTypeface => 0x111,
            GpuOpKind::SetPainterTextSize => 0x112,
            GpuOpKind::GetPainterTextSize => 0x113,
            GpuOpKind::SetPainterTextScaleX => 0x114,
            GpuOpKind::GetPainterTextScaleX => 0x115,
            GpuOpKind::SetPainterTextSkewX => 0x116,
            GpuOpKind::GetPainterTextSkewX => 0x117,
            GpuOpKind::SetPainterTextAlign => 0x118,
            GpuOpKind::GetPainterTextAlign => 0x119,
            GpuOpKind::SetPainterSubpixelText => 0x11a,
            GpuOpKind::GetPainterSubpixelText => 0x11b,
            GpuOpKind::MesaureString => 0x11c,
            GpuOpKind::CreateObject => 0x500,
            GpuOpKind::DeleteObject => 0x501,
            GpuOpKind::DeleteAllObjects => 0x502,
            GpuOpKind::CreateImageObject => 0x503,
            GpuOpKind::CreateSurfaceObject => 0x504,
            GpuOpKind::SwitchSurface => 0x505,
            GpuOpKind::DrawPixel => 0x1000,
            GpuOpKind::DrawLine => 0x1001,
            GpuOpKind::DrawRect => 0x1002,
            GpuOpKind::DrawRoundRect => 0x1003,
            GpuOpKind::DrawCircle => 0x1004,
            GpuOpKind::DrawOval => 0x1005,
            GpuOpKind::DrawPoints => 0x1006,
            GpuOpKind::DrawText => 0x1007,
            GpuOpKind::DrawImage => 0x1008,
            GpuOpKind::DrawImageRect => 0x1009,
            GpuOpKind::DrawImageRectSrc => 0x100a,
            GpuOpKind::DrawString => 0x100b,
        }
    }
}

/// No two operations share a number.
pub proof fn lemma_operation_numbers_differ(first: GpuOpKind, second: GpuOpKind)
    requires
        first != second,
    ensures
        first.spec_id() != second.spec_id(),
{
}

} // verus!
