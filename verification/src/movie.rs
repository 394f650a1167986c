//! Registration of movies with bounded metadata.
use vstd::prelude::*;

use std::collections::BTreeMap;

use crate::system::{ensure_signed, AccountId, DispatchError, RawOrigin};

verus! {

/// Identifier of a registered movie.
pub type MovieId = u32;

/// A registered movie; every text field holds at most `string_limit` bytes.
pub struct Movie {
    pub owner: AccountId,
    pub name: Vec<u8>,
    pub synopsis: Vec<u8>,
    pub movie_description: Vec<u8>,
    pub classification: u32,
    pub release: Vec<u8>,
    pub director: Vec<u8>,
    pub lang: Vec<u8>,
    pub country: Vec<u8>,
    pub rating: u32,
    pub aspect_ratio: Vec<u8>,
    pub tags: Vec<u8>,
    pub trailer: Vec<u8>,
    pub imdb: Vec<u8>,
    pub social: Vec<u8>,
    pub ipfs: Vec<u8>,
    pub link: Vec<u8>,
}

/// The contents of a `Movie`.
pub struct MovieView {
    pub owner: AccountId,
    pub name: Seq<u8>,
    pub synopsis: Seq<u8>,
    pub movie_description: Seq<u8>,
    pub classification: u32,
    pub release: Seq<u8>,
    pub director: Seq<u8>,
    pub lang: Seq<u8>,
    pub country: Seq<u8>,
    pub rating: u32,
    pub aspect_ratio: Seq<u8>,
    pub tags: Seq<u8>,
    pub trailer: Seq<u8>,
    pub imdb: Seq<u8>,
    pub social: Seq<u8>,
    pub ipfs: Seq<u8>,
    pub link: Seq<u8>,
}

impl View for Movie {
    type V = MovieView;

    open spec fn view(&self) -> MovieView {
        MovieView {
            owner: self.owner,
            name: self.name@,
            synopsis: self.synopsis@,
            movie_description: self.movie_description@,
            classification: self.classification,
            release: self.release@,
            director: self.director@,
            lang: self.lang@,
            country: self.country@,
            rating: self.rating,
            aspect_ratio: self.aspect_ratio@,
            tags: self.tags@,
            trailer: self.trailer@,
            imdb: self.imdb@,
            social: self.social@,
            ipfs: self.ipfs@,
            link: self.link@,
        }
    }
}

impl MovieView {
    /// Every text field holds at most `limit` bytes.
    pub open spec fn fits(self, limit: u32) -> bool {
        &&& self.name.len() <= limit
        &&& self.synopsis.len() <= limit
        &&& self.movie_description.len() <= limit
        &&& self.release.len() <= limit
        &&& self.director.len() <= limit
        &&& self.lang.len() <= limit
        &&& self.country.len() <= limit
        &&& self.aspect_ratio.len() <= limit
        &&& self.tags.len() <= limit
        &&& self.trailer.len() <= limit
        &&& self.imdb.len() <= limit
        &&& self.social.len() <= limit
        &&& self.ipfs.len() <= limit
        &&& self.link.len() <= limit
    }
}

#[derive(Clone, Copy, Debug, PartialEq, Eq, Structural)]
pub enum Event {
    /// A movie was registered by an account.
    MovieCreated(MovieId, AccountId),
}

#[derive(Clone, Copy, Debug, PartialEq, Eq, Structural)]
pub enum Error {
    NoAvailableMovieId,
    /// No identifier is left for a new movie.
    Overflow,
    Underflow,
    /// A text field is longer than the string limit.
    BadMetadata,
}

/// The parameters the runtime sets for the module.
#[derive(Clone, Copy, Debug, PartialEq, Eq, Structural)]
pub struct Config {
    /// The largest number of bytes a text field of a movie may hold.
    pub string_limit: u32,
}

/// Storage of the module.
pub struct Pallet {
    pub config: Config,
    pub movies: BTreeMap<MovieId, Movie>,
    /// The identifier the next registered movie gets.
    pub next_movie_id: MovieId,
    pub events: Vec<Event>,
}

/// The registered movies, by contents.
pub open spec fn movies_view(m: Map<MovieId, Movie>) -> Map<MovieId, MovieView> {
    m.map_values(|v: Movie| v@)
}

/// A byte string that fits the limit.
fn bounded(s: &Vec<u8>, limit: u32) -> (r: bool)
    ensures
        r == (s@.len() <= limit),
{
    s.len() as u64 <= limit as u64
}

impl Pallet {
    /// Every registered movie has an identifier below the next one.
    pub open spec fn ids_below_next(&self) -> bool {
        forall|id: MovieId| #[trigger] self.movies@.contains_key(id) ==> id < self.next_movie_id
    }

    /// The module at genesis: no movie, identifiers start at zero.
    pub fn new(config: Config) -> (r: Pallet)
        ensures
            r.config == config,
            r.movies@ == Map::<MovieId, Movie>::empty(),
            r.next_movie_id == 0,
            r.events@ == Seq::<Event>::empty(),
            r.ids_below_next(),
    {
        Pallet { config, movies: BTreeMap::new(), next_movie_id: 0, events: Vec::new() }
    }

    /// The identifier the next registered movie gets.
    pub fn next_movie_id(&self) -> (r: MovieId)
        ensures
            r == self.next_movie_id,
    {
        self.next_movie_id
    }

    /// Registers a movie owned by `who` under the next identifier.
    ///
    /// The identifier counter moves on before the metadata is checked, so a
    /// movie refused for its metadata still uses up an identifier.
    pub fn do_create_movie(
        &mut self,
        who: AccountId,
        name: Vec<u8>,
        synopsis: Vec<u8>,
        movie_description: Vec<u8>,
        classification: u32,
        release: Vec<u8>,
        director: Vec<u8>,
        lang: Vec<u8>,
        country: Vec<u8>,
        rating: u32,
        aspect_ratio: Vec<u8>,
        tags: Vec<u8>,
        trailer: Vec<u8>,
        imdb: Vec<u8>,
        social: Vec<u8>,
        ipfs: Vec<u8>,
        link: Vec<u8>,
    ) -> (r: Result<MovieId, DispatchError>)
        ensures
            ({
                let movie = MovieView {
                    owner: who,
                    name: name@,
                    synopsis: synopsis@,
                    movie_description: movie_description@,
                    classification,
                    release: release@,
                    director: director@,
                    lang: lang@,
                    country: country@,
                    rating,
                    aspect_ratio: aspect_ratio@,
                    tags: tags@,
                    trailer: trailer@,
                    imdb: imdb@,
                    social: social@,
                    ipfs: ipfs@,
                    link: link@,
                };
                let id = old(self).next_movie_id;
                if id == u32::MAX {
                    &&& r == Err::<MovieId, DispatchError>(DispatchError::Movie(Error::Overflow))
                    &&& final(self).next_movie_id == id
                    &&& movies_view(final(self).movies@) == movies_view(old(self).movies@)
                    &&& final(self).events@ == old(self).events@
                } else if !movie.fits(old(self).config.string_limit) {
                    &&& r == Err::<MovieId, DispatchError>(DispatchError::Movie(Error::BadMetadata))
                    &&& final(self).next_movie_id == id + 1
                    &&& movies_view(final(self).movies@) == movies_view(old(self).movies@)
                    &&& final(self).events@ == old(self).events@
                } else {
                    &&& r == Ok::<MovieId, DispatchError>(id)
                    &&& final(self).next_movie_id == id + 1
                    &&& movies_view(final(self).movies@) == movies_view(old(self).movies@).insert(id, movie)
                    &&& final(self).events@ == old(self).events@.push(Event::MovieCreated(id, who))
                }
            }),
            final(self).config == old(self).config,
            old(self).ids_below_next() ==> final(self).ids_below_next(),
            old(self).ids_below_next() ==> (r matches Ok(id) ==> !old(self).movies@.contains_key(id)),
            r is Err ==> final(self).movies@ == old(self).movies@,
    {
        let movie_id = self.next_movie_id;
        if movie_id == u32::MAX {
            return Err(DispatchError::Movie(Error::Overflow));
        }
        self.next_movie_id = movie_id + 1;
        let limit = self.config.string_limit;
        if !(bounded(&name, limit) && bounded(&synopsis, limit) && bounded(&movie_description, limit)
            && bounded(&release, limit) && bounded(&director, limit) && bounded(&lang, limit)
            && bounded(&country, limit) && bounded(&aspect_ratio, limit) && bounded(&tags, limit)
            && bounded(&trailer, limit) && bounded(&imdb, limit) && bounded(&social, limit)
            && bounded(&link, limit) && bounded(&ipfs, limit)) {
            return Err(DispatchError::Movie(Error::BadMetadata));
        }
        let movie = Movie {
            owner: who,
            name,
            synopsis,
            movie_description,
            classification,
            release,
            director,
            lang,
            country,
            rating,
            aspect_ratio,
            tags,
            trailer,
            imdb,
            social,
            ipfs,
            link,
        };
        let ghost movie_view = movie@;
        self.movies.insert(movie_id, movie);
        assert(movies_view(self.movies@) =~= movies_view(old(self).movies@).insert(movie_id, movie_view));
        self.events.push(Event::MovieCreated(movie_id, who));
        Ok(movie_id)
    }

    /// The signed call that registers a movie; when it fails, storage is left
    /// as it was.
    pub fn create_movie(
        &mut self,
        origin: RawOrigin,
        name: Vec<u8>,
        synopsis: Vec<u8>,
        movie_description: Vec<u8>,
        classification: u32,
        release: Vec<u8>,
        director: Vec<u8>,
        lang: Vec<u8>,
        country: Vec<u8>,
        rating: u32,
        aspect_ratio: Vec<u8>,
        tags: Vec<u8>,
        trailer: Vec<u8>,
        imdb: Vec<u8>,
        social: Vec<u8>,
        ipfs: Vec<u8>,
        link: Vec<u8>,
    ) -> (r: Result<(), DispatchError>)
        ensures
            ({
                let id = old(self).next_movie_id;
                match origin {
                    RawOrigin::Signed(who) => {
                        let movie = MovieView {
                            owner: who,
                            name: name@,
                            synopsis: synopsis@,
                            movie_description: movie_description@,
                            classification,
                            release: release@,
                            director: director@,
                            lang: lang@,
                            country: country@,
                            rating,
                            aspect_ratio: aspect_ratio@,
                            tags: tags@,
                            trailer: trailer@,
                            imdb: imdb@,
                            social: social@,
                            ipfs: ipfs@,
                            link: link@,
                        };
                        if id == u32::MAX {
                            r == Err::<(), DispatchError>(DispatchError::Movie(Error::Overflow))
                        } else if !movie.fits(old(self).config.string_limit) {
                            r == Err::<(), DispatchError>(DispatchError::Movie(Error::BadMetadata))
                        } else {
                            &&& r is Ok
                            &&& final(self).next_movie_id == id + 1
                            &&& movies_view(final(self).movies@) == movies_view(old(self).movies@).insert(id, movie)
                            &&& final(self).events@ == old(self).events@.push(Event::MovieCreated(id, who))
                        }
                    },
                    _ => r == Err::<(), DispatchError>(DispatchError::BadOrigin),
                }
            }),
            r is Err ==> {
                &&& final(self).next_movie_id == old(self).next_movie_id
                &&& movies_view(final(self).movies@) == movies_view(old(self).movies@)
                &&& final(self).events@ == old(self).events@
            },
            final(self).config == old(self).config,
            old(self).ids_below_next() ==> final(self).ids_below_next(),
            old(self).ids_below_next() && r is Ok ==> !old(self).movies@.contains_key(old(self).next_movie_id),
    {
        let who = ensure_signed(origin)?;
        let saved_next_id = self.next_movie_id;
        let result = self.do_create_movie(
            who,
            name,
            synopsis,
            movie_description,
            classification,
            release,
            director,
            lang,
            country,
            rating,
            aspect_ratio,
            tags,
            trailer,
            imdb,
            social,
            ipfs,
            link,
        );
        match result {
            Ok(_) => Ok(()),
            Err(e) => {
                self.next_movie_id = saved_next_id;
                Err(e)
            },
        }
    }
}

} // verus!
