use devkit::apm::Apm;
use devkit::clint::Clint;
use devkit::flash::Flash;
use devkit::floppy_drive::{
    FloppyDrive, FloppyDriveArgument, FloppyDriveError, FloppyDriveOp,
};
use devkit::gpu::{
    BlendMode, Color, FilterQuality, Gpu, GpuArgument, GpuError, GpuOpKind, HintingLevel,
    ObjectType, PainterStyle, Pixel, PointMode, TextAlign,
};
use devkit::hdd::{Hdd, HddArgument, HddError, HddOp};
use devkit::health_analyzer::{DamageType, DamageTypeIterator};
use devkit::hid::keyboard::Keyboard;
use devkit::hid::mouse::{Mouse, MouseEventType, MouseKey};
use devkit::hid::KeyState;
use devkit::mmio::Mmio;
use devkit::net_hub::{NetHubArgument, NetHubError, NetHubOp, NetworkSwitch, PortMode};
use devkit::pci::{PciBus, PciDevice};
use devkit::plic::{IrqValueType, Plic};
use devkit::rtc::Rtc;
use devkit::serial_terminal::{ReadBuffer, ReadStep};
use devkit::sgl::{TextType, Typeface};
use devkit::tpm::Tpm;

fn device(device_id: u16) -> PciDevice {
    PciDevice { device_id, vendor_id: 7, irq_pin: 1, uuid: [3; 16], mmio: Mmio::new(0x9000) }
}

#[test]
fn mmio_keeps_its_address() {
    assert_eq!(Mmio::new(0x1234).address(), 0x1234);
}

#[test]
fn devices_stand_at_their_addresses() {
    assert_eq!(Apm::default().mmio.address(), 0x2000);
    assert_eq!(Clint::default().mmio.address(), 0x3000);
    assert_eq!(Rtc::default().mmio.address(), 0x1000);
    assert_eq!(Tpm::default().mmio.address(), 0x1001_0000);
    assert_eq!(Plic::default().mmio.address(), 0x5000);
    assert_eq!(Plic::new(0x77).mmio.address(), 0x77);
    assert_eq!(PciBus::default().mmio.address(), 0x0FF8_0000);
    assert_eq!(PciBus::new(0x42).mmio.address(), 0x42);
}

#[test]
fn flash_memory_starts_behind_its_size() {
    let flash = Flash::new(Mmio::new(0x1FF8_0000), 4096);
    assert_eq!(flash.size(), 4096);
    assert_eq!(flash.mmio().address(), 0x1FF8_0004);
}

#[test]
fn floppy_error_codes() {
    assert_eq!(FloppyDriveError::from(-1), FloppyDriveError::InvalidAddress);
    assert_eq!(FloppyDriveError::from(-2), FloppyDriveError::InvalidSize);
    assert_eq!(FloppyDriveError::from(-3), FloppyDriveError::FloppyDriveIsEmpty);
    for code in [-4, 0, 1, 0xFF_FFFF, i64::MIN, i64::MAX] {
        assert_eq!(FloppyDriveError::from(code), FloppyDriveError::Unknown);
    }
    assert_eq!(FloppyDriveError::InvalidAddress.code(), -1);
    assert_eq!(FloppyDriveError::InvalidSize.code(), -2);
    assert_eq!(FloppyDriveError::FloppyDriveIsEmpty.code(), -3);
    assert_eq!(FloppyDriveError::Unknown.code(), 0xFF_FFFF);
    assert!(FloppyDriveError::FloppyDriveIsEmpty < FloppyDriveError::InvalidSize);
    assert!(FloppyDriveError::InvalidSize < FloppyDriveError::InvalidAddress);
    assert!(FloppyDriveError::InvalidAddress < FloppyDriveError::Unknown);
}

#[test]
fn hdd_error_codes() {
    assert_eq!(HddError::from(-1), HddError::InvalidAddress);
    assert_eq!(HddError::from(-2), HddError::InvalidSize);
    for code in [-3, 0, 5, i64::MIN] {
        assert_eq!(HddError::from(code), HddError::Unknown);
    }
    assert_eq!(HddError::InvalidSize.code(), -2);
    assert!(HddError::InvalidSize < HddError::InvalidAddress);
}

#[test]
fn results_split_at_zero() {
    assert_eq!(FloppyDrive::decode_result(0), Ok(0));
    assert_eq!(FloppyDrive::decode_result(512), Ok(512));
    assert_eq!(FloppyDrive::decode_result(-3), Err(FloppyDriveError::FloppyDriveIsEmpty));
    assert_eq!(FloppyDrive::decode_result(-9), Err(FloppyDriveError::Unknown));
    assert_eq!(Hdd::decode_result(-3), Err(HddError::Unknown));
    assert_eq!(Hdd::decode_result(7), Ok(7));
    assert_eq!(Gpu::decode_result(-5), Err(GpuError::NotEnoughMemory));
    assert_eq!(Gpu::decode_result(-6), Err(GpuError::Unknown));
    assert_eq!(Gpu::decode_result(1), Ok(1));
    assert_eq!(NetworkSwitch::decode_result(-2), Err(NetHubError::InvalidPortMode));
    assert_eq!(NetworkSwitch::decode_result(0), Ok(0));
}

#[test]
fn drive_operations() {
    let read = FloppyDriveOp::BulkRead { address: 1, size: 2, dst_address: 3 };
    let write = FloppyDriveOp::BulkWrite { address: 4, size: 5, src_address: 6 };
    assert_eq!(read.id(), 0);
    assert_eq!(write.id(), 1);
    assert_eq!(read.arguments(), [1, 2, 3]);
    assert_eq!(write.arguments(), [4, 5, 6]);
    let read = HddOp::BulkRead { address: 1, size: 2, dst_address: 3 };
    let write = HddOp::BulkWrite { address: 4, size: 5, src_address: 6 };
    assert_eq!(read.id(), 0);
    assert_eq!(write.id(), 1);
    assert_eq!(read.arguments(), [1, 2, 3]);
    assert_eq!(write.arguments(), [4, 5, 6]);
}

#[test]
fn argument_registers_start_at_0x100() {
    assert_eq!(HddArgument::Arg0.offset(), 0x100);
    assert_eq!(HddArgument::Arg9.offset(), 0x109);
    assert_eq!(FloppyDriveArgument::Arg3.offset(), 0x103);
    assert_eq!(GpuArgument::Arg0.offset(), 0x100);
    assert_eq!(GpuArgument::Arg8.offset(), 0x108);
    assert_eq!(NetHubArgument::Arg2.offset(), 0x102);
    assert_eq!(HddArgument::from(4), HddArgument::Arg4);
    assert_eq!(HddArgument::from(9), HddArgument::Arg9);
    assert_eq!(HddArgument::from(10), HddArgument::Arg0);
    assert_eq!(HddArgument::from(255), HddArgument::Arg0);
}

#[test]
fn devices_come_from_the_bus() {
    assert_eq!(FloppyDrive::from(device(0x6D)).device.device_id, 0x6D);
    assert_eq!(Hdd::from(device(0x6C)).device.mmio.address(), 0x9000);
    assert_eq!(Gpu::from(device(0x66)).device.uuid, [3; 16]);
    assert_eq!(Keyboard::from(device(0x69)).device.vendor_id, 7);
    assert_eq!(Mouse::from(device(0x68)).device.irq_pin, 1);
    assert_eq!(devkit::floppy_drive::DEVICE_ID, 0x6D);
    assert_eq!(devkit::hdd::DEVICE_ID, 0x6C);
    assert_eq!(devkit::floppy_drive::MAX_READ_WRITE_SIZE, 65_536);
    assert_eq!(devkit::hdd::MAX_READ_WRITE_SIZE, 65_536);
}

#[test]
fn gpu_codes_decode_defensively() {
    assert_eq!(BlendMode::from(0), BlendMode::Clear);
    assert_eq!(BlendMode::from(3), BlendMode::SrcOver);
    assert_eq!(BlendMode::from(28), BlendMode::Luminosity);
    assert_eq!(BlendMode::from(29), BlendMode::Clear);
    assert_eq!(BlendMode::Luminosity.code(), 28);
    assert_eq!(FilterQuality::from(0), FilterQuality::Unfiltered);
    assert_eq!(FilterQuality::from(3), FilterQuality::High);
    assert_eq!(FilterQuality::from(4), FilterQuality::Unfiltered);
    assert_eq!(HintingLevel::from(2), HintingLevel::Normal);
    assert_eq!(HintingLevel::from(200), HintingLevel::NoHinting);
    assert_eq!(ObjectType::from(3), ObjectType::Typeface);
    assert_eq!(ObjectType::from(4), ObjectType::Points);
    assert_eq!(PainterStyle::from(2), PainterStyle::StrokeAndFill);
    assert_eq!(PainterStyle::from(3), PainterStyle::Fill);
    assert_eq!(PointMode::from(1), PointMode::Lines);
    assert_eq!(PointMode::from(9), PointMode::Points);
    assert_eq!(TextAlign::from(1), TextAlign::Center);
    assert_eq!(TextAlign::from(2), TextAlign::Right);
    assert_eq!(TextAlign::from(3), TextAlign::Left);
    assert_eq!(TextAlign::Right.code(), 2);
    assert_eq!(GpuError::from(-1), GpuError::NotInitialized);
    assert_eq!(GpuError::from(-4), GpuError::InvalidBuffer);
    assert_eq!(GpuError::from(-5), GpuError::NotEnoughMemory);
    assert_eq!(GpuError::from(-6), GpuError::Unknown);
    assert_eq!(GpuError::Unknown.code(), 0xFF_FFFF);
    assert!(GpuError::NotEnoughMemory < GpuError::NotInitialized);
}

#[test]
fn colors() {
    let c = Color::new_rgb(1, 2, 3);
    assert_eq!((c.r, c.g, c.b, c.a), (1, 2, 3, 255));
    let c = Color::new_rgba(1, 2, 3, 4);
    assert_eq!((c.r, c.g, c.b, c.a), (1, 2, 3, 4));
    let c = Color::red();
    assert_eq!((c.r, c.g, c.b, c.a), (255, 0, 0, 255));
    let c = Color::green();
    assert_eq!((c.r, c.g, c.b, c.a), (0, 255, 0, 255));
    let c = Color::blue();
    assert_eq!((c.r, c.g, c.b, c.a), (0, 0, 255, 255));
    let c = Color::white();
    assert_eq!((c.r, c.g, c.b, c.a), (255, 255, 255, 255));
    let c = Color::black();
    assert_eq!((c.r, c.g, c.b, c.a), (0, 0, 0, 255));
    let c = Color::from(0x0403_0201i64);
    assert_eq!((c.r, c.g, c.b, c.a), (1, 2, 3, 4));
    let c = Color::from(-1i64);
    assert_eq!((c.r, c.g, c.b, c.a), (255, 255, 255, 255));
    let c = Color::from(0x1_0000_00ffi64);
    assert_eq!((c.r, c.g, c.b, c.a), (255, 0, 0, 0));
    let p = Pixel::new_rgb(9, 8, 7);
    assert_eq!((p.r, p.g, p.b, p.a), (9, 8, 7, 255));
    let p = Pixel::new_rgba(9, 8, 7, 6);
    assert_eq!((p.r, p.g, p.b, p.a), (9, 8, 7, 6));
}

#[test]
fn keys_and_events() {
    assert_eq!(KeyState::from(0), KeyState::Up);
    assert_eq!(KeyState::from(1), KeyState::Repeat);
    assert_eq!(KeyState::from(2), KeyState::Down);
    assert_eq!(KeyState::from(3), KeyState::Up);
    assert_eq!(MouseEventType::from(1), MouseEventType::Key);
    assert_eq!(MouseEventType::from(2), MouseEventType::Move);
    assert_eq!(MouseEventType::from(3), MouseEventType::NoEvent);
    assert_eq!(MouseKey::from(0), MouseKey::Left);
    assert_eq!(MouseKey::from(2), MouseKey::Middle);
    assert_eq!(MouseKey::from(3), MouseKey::Unknown);
    assert_eq!(MouseKey::from(255), MouseKey::Unknown);
    assert_eq!(MouseKey::Left.offset(), 0x100);
    assert_eq!(MouseKey::Middle.offset(), 0x102);
    assert_eq!(MouseKey::Unknown.offset(), 0x1FF);
    assert_eq!(Mouse::decode_position(0x0000_0002_0000_0001), (1, 2));
    assert_eq!(Mouse::decode_position(u64::MAX), (u32::MAX, u32::MAX));
    assert_eq!(devkit::hid::events_value(true), 1);
    assert_eq!(devkit::hid::events_value(false), 0);
    assert!(devkit::hid::events_enabled(2));
    assert!(!devkit::hid::events_enabled(0));
    assert_eq!(Clint::interrupt_value(true), 1);
    assert_eq!(Clint::interrupt_value(false), 0);
}

#[test]
fn switch_operations() {
    assert_eq!(NetHubError::from(-1), NetHubError::InvalidPort);
    assert_eq!(NetHubError::from(-2), NetHubError::InvalidPortMode);
    assert_eq!(NetHubError::from(-3), NetHubError::InvalidSize);
    assert_eq!(NetHubError::from(-4), NetHubError::Unknown);
    assert_eq!(PortMode::from(1), PortMode::Complex);
    assert_eq!(PortMode::from(2), PortMode::Simple);
    let ops = [
        NetHubOp::SetInputPortEnabled { port: 3, state: true },
        NetHubOp::IsInputPortConnected { port: 3 },
        NetHubOp::IsOutputPortConnected { port: 3 },
        NetHubOp::InvokeSimpleOutputPort { port: 3 },
        NetHubOp::IsInputPortPending { port: 3 },
        NetHubOp::ClaimSimpleInputPort { port: 3 },
        NetHubOp::GetInputPortMode { port: 3 },
        NetHubOp::GetOutputPortMode { port: 3 },
        NetHubOp::SetInputPortMode { port: 3, mode: PortMode::Complex },
        NetHubOp::SetOutputPortMode { port: 3, mode: PortMode::Simple },
        NetHubOp::InvokeComplexOutputPort { port: 3, address: 0x8000, size: 64 },
        NetHubOp::GetPendingInputPort,
        NetHubOp::ClaimComplexInputPort { port: 3, address: 0x9000 },
    ];
    for (id, op) in ops.iter().enumerate() {
        assert_eq!(op.id(), id as u32);
    }
    assert_eq!(ops[0].arguments(), vec![3, 1]);
    assert_eq!(NetHubOp::SetInputPortEnabled { port: 9, state: false }.arguments(), vec![9, 0]);
    assert_eq!(ops[1].arguments(), vec![3]);
    assert_eq!(ops[8].arguments(), vec![3, 1]);
    assert_eq!(ops[9].arguments(), vec![3, 0]);
    assert_eq!(ops[10].arguments(), vec![3, 0x8000, 64]);
    assert_eq!(ops[11].arguments(), Vec::<usize>::new());
    assert_eq!(ops[12].arguments(), vec![3, 0x9000]);
}

#[test]
fn interrupts() {
    assert!(Plic::decode_irq(0).is_none());
    let irq = Plic::decode_irq(0x0305).unwrap();
    assert_eq!((irq.priority, irq.is_enabled, irq.is_pending), (5, true, true));
    let irq = Plic::decode_irq(0x0100).unwrap();
    assert_eq!((irq.priority, irq.is_enabled, irq.is_pending), (0, true, false));
    let irq = Plic::decode_irq(0xFCFF).unwrap();
    assert_eq!((irq.priority, irq.is_enabled, irq.is_pending), (255, false, false));
    assert_eq!(Plic::decode_pending(0), None);
    assert_eq!(Plic::decode_pending(9), Some(9));
    assert_eq!(Plic::irq_register(4), 0x14);
    assert_eq!(Plic::encode_value(0x12, IrqValueType::Claim, 0x34), 0x0034_0212);
    assert_eq!(Plic::priority_word(1, 7), 0x0007_0001);
    assert_eq!(Plic::enabled_word(2, true), 0x0001_0102);
    assert_eq!(Plic::enabled_word(2, false), 0x0000_0102);
    assert_eq!(Plic::claim_word(255), 0x0001_02FF);
}

#[test]
fn bus_slots() {
    assert_eq!(PciBus::info_register(0), 0);
    assert_eq!(PciBus::info_register(3), 0x300);
    assert_eq!(PciBus::address_register(3), 0x301);
    assert_eq!(PciBus::address_register(255), 0xFF01);
    let found = PciBus::decode_device(0x0000_0009_006C_0007, 0x4000, [5; 16]).unwrap();
    assert_eq!(found.vendor_id, 7);
    assert_eq!(found.device_id, 0x6C);
    assert_eq!(found.irq_pin, 9);
    assert_eq!(found.uuid, [5; 16]);
    assert_eq!(found.mmio.address(), 0x4000);
    assert!(PciBus::decode_device(0x0000_0009_006C_FFFF, 0x4000, [5; 16]).is_none());
    assert!(PciBus::decode_device(0x0000_0009_FFFF_0007, 0x4000, [5; 16]).is_none());
    assert!(PciBus::decode_device(u64::MAX, 0, [0; 16]).is_none());
}

#[test]
fn bus_search_finds_the_first_match() {
    let bus = PciBus::default();
    let mut second = device(0x6C);
    second.irq_pin = 2;
    let devices = [device(0x66), device(0x6C), second, device(0x6D)];
    assert_eq!(bus.find_by_id(&devices, 0x6C).unwrap().irq_pin, 1);
    assert_eq!(bus.find_by_id(&devices, 0x6D).unwrap().device_id, 0x6D);
    assert!(bus.find_by_id(&devices, 0x99).is_none());
    assert!(bus.find_by_id(&[], 0x66).is_none());
}

#[test]
fn bus_walk_visits_every_slot_once() {
    let bus = PciBus::new(0x100);
    let mut walk = bus.iter();
    let mut slots = 0u32;
    while let Some(slot) = walk.slot() {
        assert_eq!(slot as u32, slots);
        assert_eq!(walk.advance(Some(device(1))).unwrap().device_id, 1);
        slots += 1;
    }
    assert_eq!(slots, 256);
    assert!(walk.advance(None).is_none());
    assert!(walk.slot().is_none());
}

#[test]
fn damage_kinds_in_order() {
    let mut iter = DamageTypeIterator::default();
    let mut kinds = Vec::new();
    while let Some(kind) = iter.next() {
        kinds.push(kind);
    }
    assert_eq!(kinds.len(), 12);
    assert_eq!(kinds[0], DamageType::Asphyxiation);
    assert_eq!(kinds[11], DamageType::Slash);
    assert!(iter.next().is_none());
    for (index, kind) in kinds.iter().enumerate() {
        assert_eq!(kind.code() as usize, index);
        assert_eq!(kind.offset(), 0x10 + index);
    }
    assert_eq!(DamageType::from(8), DamageType::Poison);
    assert_eq!(DamageType::from(12), DamageType::Asphyxiation);
}

#[test]
fn typefaces() {
    assert_eq!(Typeface::new_from_id(42).id(), 42);
    assert!(Typeface::from_painter(0).is_none());
    assert_eq!(Typeface::from_painter(7), Some(Typeface::new_from_id(7)));
}

#[test]
fn terminal_read_ends_at_the_zero_byte() {
    let mut buffer = ReadBuffer::new();
    assert!(matches!(buffer.feed(b'h'), ReadStep::More));
    assert!(matches!(buffer.feed(b'i'), ReadStep::More));
    match buffer.feed(0) {
        ReadStep::Done(Some(bytes)) => {
            assert_eq!(&bytes[..2], b"hi");
            assert!(bytes[2..].iter().all(|b| *b == 0));
        }
        _ => panic!("expected the buffer"),
    }
}

#[test]
fn terminal_read_of_nothing_gives_nothing() {
    assert!(matches!(ReadBuffer::new().feed(0), ReadStep::Done(None)));
}

#[test]
fn terminal_read_gives_up_when_the_buffer_is_full() {
    let mut buffer = ReadBuffer::new();
    for _ in 0..1023 {
        assert!(matches!(buffer.feed(b'x'), ReadStep::More));
    }
    assert!(matches!(buffer.feed(b'x'), ReadStep::Done(None)));
    let mut buffer = ReadBuffer::new();
    for _ in 0..1023 {
        assert!(matches!(buffer.feed(b'x'), ReadStep::More));
    }
    match buffer.feed(0) {
        ReadStep::Done(Some(bytes)) => {
            assert!(bytes[..1023].iter().all(|b| *b == b'x'));
            assert_eq!(bytes[1023], 0);
        }
        _ => panic!("expected the buffer"),
    }
}

#[test]
fn gpu_operation_numbers() {
    assert_eq!(GpuOpKind::Init.id(), 0x0);
    assert_eq!(GpuOpKind::GetPixel.id(), 0x10);
    assert_eq!(GpuOpKind::SetPainterColor.id(), 0x100);
    assert_eq!(GpuOpKind::GetPainterSubpixelText.id(), 0x11B);
    assert_eq!(GpuOpKind::MesaureString.id(), 0x11C);
    assert_eq!(GpuOpKind::CreateObject.id(), 0x500);
    assert_eq!(GpuOpKind::SwitchSurface.id(), 0x505);
    assert_eq!(GpuOpKind::DrawPixel.id(), 0x1000);
    assert_eq!(GpuOpKind::DrawImageRectSrc.id(), 0x100A);
    assert_eq!(GpuOpKind::DrawString.id(), 0x100B);
}

#[test]
fn texts_that_the_device_keeps_have_a_number() {
    assert_eq!(TextType::<&str>::Static(12).object_id(), Some(12));
    assert_eq!(TextType::Dynamic("letters").object_id(), None);
}
