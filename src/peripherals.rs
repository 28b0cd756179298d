use vstd::prelude::*;

verus! {

/// Records the user's permanent choice `enable` for the wifi in the setting
/// `wifi`. Returns whether the choice changed, in which case the interface
/// must be switched to match; switching it off also marks the device offline.
pub fn set_wifi_perm(enable: bool, wifi: &mut bool, online: &mut bool) -> (toggle: bool)
    ensures
        toggle == (*old(wifi) != enable),
        *final(wifi) == enable,
        *final(online) == if toggle && !enable {
            false
        } else {
            *old(online)
        },
{
    if *wifi == enable {
        return false;
    }
    *wifi = enable;
    if !*wifi {
        *online = false;
    }
    true
}

} // verus!
