//! The per-server aggregate: every entity collection one remote server
//! mirrors, plus its credentials and display name.

use vstd::prelude::*;
use crate::collection::CollectionState;
use crate::library::LibraryState;
use crate::list::{IdMap, decoded_map, lemma_codec_round_trip};
use crate::playlist::PlaylistState;
use crate::season::SeasonState;
use crate::show::ShowState;
use crate::video::VideoState;

verus! {

/// Everything mirrored from one remote server: the authentication token (an
/// empty token means unauthenticated), the display name, and the five
/// identifier-keyed entity collections plus playlists.
#[derive(Debug, PartialEq)]
pub struct ServerState {
    pub token: String,
    pub name: String,
    pub playlists: IdMap<PlaylistState>,
    pub collections: IdMap<CollectionState>,
    pub libraries: IdMap<LibraryState>,
    pub shows: IdMap<ShowState>,
    pub seasons: IdMap<SeasonState>,
    pub videos: IdMap<VideoState>,
}

impl ServerState {
    /// Well-formedness: every collection keys each record by its own
    /// identifier, with no identifier repeated.
    pub open spec fn wf(&self) -> bool {
        &&& self.playlists.wf()
        &&& self.collections.wf()
        &&& self.libraries.wf()
        &&& self.shows.wf()
        &&& self.seasons.wf()
        &&& self.videos.wf()
    }
}

/// The codec's round trip over a whole server: encode each collection to
/// its on-disk array, reorder each array arbitrarily (the multiset
/// hypotheses say exactly that), and decoding yields collections holding
/// exactly the original identifiers mapped to equal records.
pub proof fn lemma_server_state_round_trip(
    server: ServerState,
    playlists: Seq<PlaylistState>,
    collections: Seq<CollectionState>,
    libraries: Seq<LibraryState>,
    shows: Seq<ShowState>,
    seasons: Seq<SeasonState>,
    videos: Seq<VideoState>,
)
    requires
        server.wf(),
        playlists.to_multiset() == server.playlists.list().to_multiset(),
        collections.to_multiset() == server.collections.list().to_multiset(),
        libraries.to_multiset() == server.libraries.list().to_multiset(),
        shows.to_multiset() == server.shows.list().to_multiset(),
        seasons.to_multiset() == server.seasons.list().to_multiset(),
        videos.to_multiset() == server.videos.list().to_multiset(),
    ensures
        decoded_map(playlists) == server.playlists@,
        decoded_map(collections) == server.collections@,
        decoded_map(libraries) == server.libraries@,
        decoded_map(shows) == server.shows@,
        decoded_map(seasons) == server.seasons@,
        decoded_map(videos) == server.videos@,
{
    lemma_codec_round_trip(server.playlists, playlists);
    lemma_codec_round_trip(server.collections, collections);
    lemma_codec_round_trip(server.libraries, libraries);
    lemma_codec_round_trip(server.shows, shows);
    lemma_codec_round_trip(server.seasons, seasons);
    lemma_codec_round_trip(server.videos, videos);
}

impl Default for ServerState {
    /// A server nothing has been mirrored from yet: unauthenticated,
    /// unnamed, every collection empty.
    fn default() -> (r: ServerState)
        ensures
            r.wf(),
            r.token@ == Seq::<char>::empty(),
            r.name@ == Seq::<char>::empty(),
            r.playlists@ == Map::<u32, PlaylistState>::empty(),
            r.collections@ == Map::<u32, CollectionState>::empty(),
            r.libraries@ == Map::<u32, LibraryState>::empty(),
            r.shows@ == Map::<u32, ShowState>::empty(),
            r.seasons@ == Map::<u32, SeasonState>::empty(),
            r.videos@ == Map::<u32, VideoState>::empty(),
    {
        ServerState {
            token: String::new(),
            name: String::new(),
            playlists: IdMap::new(),
            collections: IdMap::new(),
            libraries: IdMap::new(),
            shows: IdMap::new(),
            seasons: IdMap::new(),
            videos: IdMap::new(),
        }
    }
}

} // verus!
