pub mod cancel_offer;
pub mod make_offer;
pub mod take_offer;
