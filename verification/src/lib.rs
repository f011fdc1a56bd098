//! Bare-metal xHCI host-controller core.
//!
//! The crate drives a USB 3.x host controller (xHCI) in environments without
//! an operating system underneath: it owns controller initialization, DMA
//! buffer management, the Transfer Request Block (TRB) ring machinery with its
//! cycle-bit protocol, and the device abstraction (slot enable, addressing,
//! control transfers, endpoint configuration).
//!
//! All platform access — physically contiguous allocation, MMIO mapping, and
//! volatile loads and stores — goes through the [`ram::Dma`] capability that
//! the embedder supplies; the core itself is pure, verified logic over the
//! values that capability hands back.
//!
//! Every blocking wait — controller halt and reset, port reset, command
//! completion, transfer completion — is a bounded poll of up to
//! [`xhci::SPIN_LIMIT`] reads that reports [`err::UsbError::Timeout`] when
//! the hardware does not respond, so no verified function can spin forever.

pub mod class;
pub mod completion;
pub mod ctx;
pub mod desc;
pub mod desc_type;
pub mod dev;
pub mod ep_type;
pub mod err;
pub mod hid;
pub mod msc;
pub mod ram;
pub mod reg;
pub mod ring;
pub mod trb;
pub mod trb_flags;
pub mod trb_type;
pub mod xhci;

pub use crate::ctx::{DeviceContext, EndpointContext, InputContext, SlotContext};
pub use crate::desc::{BosDesc, ConfigDesc, DeviceDesc, DeviceQualifierDesc, EndpointDesc, HidDesc, HubDesc, InterfaceAssocDesc, InterfaceDesc, SetupPacket, SsDevCapDesc, SsEpCompDesc, SsHubDesc, Usb20ExtCapDesc};
pub use crate::dev::{TransferOutcome, UsbDevice};
pub use crate::err::UsbError;
pub use crate::hid::{find_hid_interfaces, scancode_to_ascii, HidDevice, HidType, KeyboardReport, MouseReport};
pub use crate::msc::{find_msc_interfaces, Cbw, Csw, InquiryData, MscDevice, ReadCapacity10Data, RequestSenseData};
pub use crate::ram::{Dma, PhysMem};
pub use crate::ring::{EventRing, Ring};
pub use crate::trb::Trb;
pub use crate::xhci::XhciCtrl;
