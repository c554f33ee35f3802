//! Messages that came back.

pub mod delivery_stats;

pub use delivery_stats::{
    Bounce, BounceView, DeliveryStatsRequest, DeliveryStatsResponse, DeliveryStatsResponseView,
};
