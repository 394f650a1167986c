use pallets::movie::{Config, Error, Event, Pallet};
use pallets::system::{DispatchError, RawOrigin};

fn text(s: &str) -> Vec<u8> {
    s.as_bytes().to_vec()
}

fn create(p: &mut Pallet, origin: RawOrigin, name: Vec<u8>) -> Result<(), DispatchError> {
    p.create_movie(
        origin,
        name,
        text("synopsis"),
        text("description"),
        12,
        text("2020"),
        text("director"),
        text("en"),
        text("pt"),
        4,
        text("16:9"),
        text("drama"),
        text("trailer"),
        text("tt0000001"),
        text("social"),
        text("ipfs"),
        text("link"),
    )
}

#[test]
fn create_movie_stores_the_movie_under_the_next_identifier() {
    let mut p = Pallet::new(Config { string_limit: 32 });
    assert_eq!(create(&mut p, RawOrigin::Signed(5), text("first")), Ok(()));
    assert_eq!(create(&mut p, RawOrigin::Signed(6), text("second")), Ok(()));
    assert_eq!(p.next_movie_id(), 2);
    let first = p.movies.get(&0).unwrap();
    assert_eq!(first.owner, 5);
    assert_eq!(first.name, text("first"));
    assert_eq!(first.classification, 12);
    assert_eq!(first.rating, 4);
    assert_eq!(first.link, text("link"));
    assert_eq!(p.movies.get(&1).unwrap().owner, 6);
    assert_eq!(p.events, vec![Event::MovieCreated(0, 5), Event::MovieCreated(1, 6)]);
}

#[test]
fn create_movie_refuses_a_field_over_the_limit_and_keeps_the_identifier() {
    let mut p = Pallet::new(Config { string_limit: 5 });
    assert_eq!(
        create(&mut p, RawOrigin::Signed(5), text("toolong")),
        Err(DispatchError::Movie(Error::BadMetadata))
    );
    assert_eq!(p.next_movie_id(), 0);
    assert!(p.movies.is_empty());
    assert!(p.events.is_empty());
}

#[test]
fn create_movie_accepts_fields_exactly_at_the_limit() {
    let mut p = Pallet::new(Config { string_limit: 11 });
    assert_eq!(create(&mut p, RawOrigin::Signed(5), text("exactly 11b")), Ok(()));
    assert_eq!(p.movies.len(), 1);
}

#[test]
fn do_create_movie_uses_up_an_identifier_on_bad_metadata() {
    let mut p = Pallet::new(Config { string_limit: 3 });
    let r = p.do_create_movie(
        5,
        text("ok"),
        text("ok"),
        text("ok"),
        1,
        text("ok"),
        text("ok"),
        text("ok"),
        text("ok"),
        1,
        text("ok"),
        text("ok"),
        text("ok"),
        text("ok"),
        text("ok"),
        text("ok"),
        text("far too long"),
    );
    assert_eq!(r, Err(DispatchError::Movie(Error::BadMetadata)));
    assert_eq!(p.next_movie_id(), 1);
    assert!(p.movies.is_empty());
}

#[test]
fn do_create_movie_returns_the_identifier() {
    let mut p = Pallet::new(Config { string_limit: 8 });
    p.next_movie_id = 41;
    let r = p.do_create_movie(
        5,
        text("a"),
        text("b"),
        text("c"),
        1,
        text("d"),
        text("e"),
        text("f"),
        text("g"),
        2,
        text("h"),
        text("i"),
        text("j"),
        text("k"),
        text("l"),
        text("m"),
        text("n"),
    );
    assert_eq!(r, Ok(41));
    assert_eq!(p.next_movie_id(), 42);
    assert_eq!(p.movies.get(&41).unwrap().ipfs, text("m"));
}

#[test]
fn create_movie_without_identifiers_left_overflows() {
    let mut p = Pallet::new(Config { string_limit: 32 });
    p.next_movie_id = u32::MAX;
    assert_eq!(
        create(&mut p, RawOrigin::Signed(5), text("x")),
        Err(DispatchError::Movie(Error::Overflow))
    );
    assert_eq!(p.next_movie_id(), u32::MAX);
    assert!(p.movies.is_empty());
}

#[test]
fn create_movie_needs_a_signed_origin() {
    let mut p = Pallet::new(Config { string_limit: 32 });
    assert_eq!(create(&mut p, RawOrigin::Root, text("x")), Err(DispatchError::BadOrigin));
    assert_eq!(p.next_movie_id(), 0);
}

#[test]
fn ranking_list_module_starts_empty() {
    let p = pallets::ranking_list::Pallet::new(pallets::ranking_list::Config {
        string_limit: 16,
        pallet_id: *b"rank/lst",
    });
    assert_eq!(p.next_ranking_list_id(), 0);
    assert_eq!(p.next_derivate_nounce(), 0);
    assert!(p.ranking_lists.is_empty());
    assert!(p.movies_in_list.is_empty());
    assert_eq!(p.config.pallet_id, *b"rank/lst");
}
