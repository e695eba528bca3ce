//! Numbers of the X11 protocol as x11rb defines them.
use vstd::prelude::*;
use x11rb::protocol::xproto;

verus! {

/// x11rb's `xproto::WindowClass::COPY_FROM_PARENT` as a `u32`; x11rb defines it as 0.
#[verifier::external_body]
pub(crate) fn window_class_copy_from_parent() -> (r: u32)
    ensures
        r == 0,
{
    xproto::WindowClass::COPY_FROM_PARENT.into()
}

/// x11rb's `xproto::WindowClass::INPUT_OUTPUT` as a `u32`; x11rb defines it as 1.
#[verifier::external_body]
pub(crate) fn window_class_input_output() -> (r: u32)
    ensures
        r == 1,
{
    xproto::WindowClass::INPUT_OUTPUT.into()
}

/// x11rb's `xproto::WindowClass::INPUT_ONLY` as a `u32`; x11rb defines it as 2.
#[verifier::external_body]
pub(crate) fn window_class_input_only() -> (r: u32)
    ensures
        r == 2,
{
    xproto::WindowClass::INPUT_ONLY.into()
}

/// x11rb's `xproto::MapState::UNMAPPED` as a `u32`; x11rb defines it as 0.
#[verifier::external_body]
pub(crate) fn map_state_unmapped() -> (r: u32)
    ensures
        r == 0,
{
    xproto::MapState::UNMAPPED.into()
}

/// x11rb's `xproto::MapState::UNVIEWABLE` as a `u32`; x11rb defines it as 1.
#[verifier::external_body]
pub(crate) fn map_state_unviewable() -> (r: u32)
    ensures
        r == 1,
{
    xproto::MapState::UNVIEWABLE.into()
}

/// x11rb's `xproto::MapState::VIEWABLE` as a `u32`; x11rb defines it as 2.
#[verifier::external_body]
pub(crate) fn map_state_viewable() -> (r: u32)
    ensures
        r == 2,
{
    xproto::MapState::VIEWABLE.into()
}

/// x11rb's `NONE`, the value of an absent atom or window; x11rb defines it as 0.
#[verifier::external_body]
pub(crate) fn none() -> (r: u32)
    ensures
        r == 0,
{
    x11rb::NONE
}

} // verus!
