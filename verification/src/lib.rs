//! A turn-based duel game: two players stop a running counter as close as
//! possible to random objectives; the better average score wins the round and
//! takes vitality away from the other player.

pub mod counter;
pub mod game;
pub mod player;
pub mod scoring;
pub mod text;
