//! The shapes in which butlerd packs the values of its answers.
#![allow(non_snake_case)]

use vstd::prelude::*;

use crate::responses::{
    Cave, Collection, CollectionGame, Download, DownloadKey, Game, InstallLocationSummary,
    Profile, ProfileGame, Sale, Upload, User,
};

verus! {

#[derive(Debug)]
pub struct FetchUploads {
    pub uploads: Vec<Upload>,
}

#[derive(Debug)]
pub struct FetchCaves {
    pub items: Vec<Cave>,
}

#[derive(Debug)]
pub struct FetchCave {
    pub cave: Cave,
}

#[derive(Debug)]
pub struct FetchGame {
    pub game: Game,
}

#[derive(Debug)]
pub struct FetchProfile {
    pub profile: Profile,
}

#[derive(Debug)]
pub struct FetchGames {
    pub items: Vec<Game>,
}

#[derive(Debug)]
pub struct FetchPGames {
    pub items: Vec<ProfileGame>,
}

#[derive(Debug)]
pub struct FetchSale {
    pub sale: Option<Sale>,
}

#[derive(Debug)]
pub struct FetchIDirs {
    pub installLocations: Vec<InstallLocationSummary>,
}

#[derive(Debug)]
pub struct DownList {
    pub downloads: Option<Vec<Download>>,
}

#[derive(Debug)]
pub struct GamesSearchRes {
    pub games: Option<Vec<Game>>,
}

#[derive(Debug)]
pub struct DidCancel {
    pub didCancel: bool,
}

#[derive(Debug)]
pub struct Success {
    pub success: bool,
}

#[derive(Debug)]
pub struct FetchProfiles {
    pub profiles: Vec<Profile>,
}

#[derive(Debug)]
pub struct ProfileKeys {
    pub items: Vec<DownloadKey>,
}

#[derive(Debug)]
pub struct FetchDKey {
    pub downloadKey: DownloadKey,
}

#[derive(Debug)]
pub struct FetchCollection {
    pub collection: Collection,
}

#[derive(Debug)]
pub struct FetchCollectionGames {
    pub items: Option<Vec<CollectionGame>>,
}

#[derive(Debug)]
pub struct FetchPCol {
    pub items: Option<Vec<Collection>>,
}

#[derive(Debug)]
pub struct SearchUsers {
    pub users: Option<Vec<User>>,
}

#[derive(Debug)]
pub struct GetRes {
    pub value: Option<String>,
    pub ok: Option<bool>,
}

} // verus!
