//! Wireless networking: the configuration layer, the MAC layer and the
//! WPA supplicant.

pub mod cfg80211;
pub mod mac80211;
pub mod wpa;
