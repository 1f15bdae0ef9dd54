//! Which of the USB devices that were found are keyboards of this driver.

use vstd::prelude::*;
use crate::error::CherryRgbError;

verus! {

/// USB vendor id of Cherry GmbH.
pub const CHERRY_USB_VID: u16 = 0x046a;

/// Product id of the Cherry KC 1000, which this driver does not support.
pub const UNSUPPORTED_PRODUCT_ID: u16 = 0xc122;

/// Whether the device with these ids (vendor, product) is a supported Cherry
/// keyboard, and the one that was asked for where a product id was given.
pub open spec fn is_wanted(ids: (u16, u16), product_id: Option<u16>) -> bool {
    &&& ids.0 == CHERRY_USB_VID
    &&& ids.1 != UNSUPPORTED_PRODUCT_ID
    &&& product_id matches Some(wanted) ==> ids.1 == wanted
}

/// Returns true if the product id is not on the list of unsupported products.
pub fn is_supported(product_id: u16) -> (supported: bool)
    ensures
        supported == (product_id != UNSUPPORTED_PRODUCT_ID),
{
    product_id != UNSUPPORTED_PRODUCT_ID
}

/// Selects the supported Cherry keyboards among the devices that were found
/// on the bus, each given by vendor id and product id, and keeps their order.
/// Where `product_id` is given, only devices of that product are selected.
/// That none is selected is an error.
pub fn find_devices(found: &Vec<(u16, u16)>, product_id: Option<u16>) -> (selected: Result<
    Vec<(u16, u16)>,
    CherryRgbError,
>)
    ensures
        selected is Ok <==> exists|i: int|
            0 <= i < found@.len() && is_wanted(#[trigger] found@[i], product_id),
        selected matches Ok(ids) ==> ids@ == found@.filter(|ids: (u16, u16)| is_wanted(ids, product_id)),
        selected matches Err(e) ==> e == CherryRgbError::NoMatchingDevice,
{
    let ghost wanted = |ids: (u16, u16)| is_wanted(ids, product_id);
    let mut usb_ids: Vec<(u16, u16)> = Vec::new();
    let mut i: usize = 0;
    while i < found.len()
        invariant
            i <= found@.len(),
            wanted == (|ids: (u16, u16)| is_wanted(ids, product_id)),
            usb_ids@ == found@.take(i as int).filter(wanted),
            usb_ids@.len() > 0 <==> exists|j: int|
                0 <= j < i && is_wanted(#[trigger] found@[j], product_id),
        decreases found@.len() - i,
    {
        let ids = found[i];
        let matches_product = match product_id {
            Some(prod_id) => ids.1 == prod_id,
            None => true,
        };
        proof {
            reveal(Seq::filter);
            assert(found@.take(i as int + 1).drop_last() =~= found@.take(i as int));
        }
        if ids.0 == CHERRY_USB_VID && is_supported(ids.1) && matches_product {
            usb_ids.push(ids);
        }
        i = i + 1;
    }
    assert(found@.take(i as int) =~= found@);
    if usb_ids.is_empty() {
        return Err(CherryRgbError::NoMatchingDevice);
    }
    Ok(usb_ids)
}

/// Picks the keyboard to talk to among those that were selected: the only
/// one. With none there is nothing to talk to; with more than one, a product
/// id has to tell which one is meant.
pub fn pick_device(selected: &Vec<(u16, u16)>) -> (picked: Result<(u16, u16), CherryRgbError>)
    ensures
        picked is Ok <==> selected@.len() == 1,
        picked matches Ok(ids) ==> ids == selected@[0],
        picked matches Err(e) ==> e == (if selected@.len() == 0 {
            CherryRgbError::NoMatchingDevice
        } else {
            CherryRgbError::AmbiguousDevice { count: selected@.len() as usize }
        }),
{
    if selected.len() == 0 {
        Err(CherryRgbError::NoMatchingDevice)
    } else if selected.len() > 1 {
        Err(CherryRgbError::AmbiguousDevice { count: selected.len() })
    } else {
        Ok(selected[0])
    }
}

} // verus!
