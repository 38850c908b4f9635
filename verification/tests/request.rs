use stargate_randomizer::EpisodeReference;
use stargate_randomizer::Show;
use stargate_randomizer::decimal_string;
use stargate_randomizer::request_url;

#[test]
fn decimal_writes_exact_digits() {
    assert_eq!(decimal_string(0), "0");
    assert_eq!(decimal_string(7), "7");
    assert_eq!(decimal_string(10), "10");
    assert_eq!(decimal_string(4629), "4629");
    assert_eq!(decimal_string(4294967295), "4294967295");
}

#[test]
fn request_url_is_the_exact_template() {
    let ep = EpisodeReference { show: Show::Sg1, season: 1, episode: 20 };
    assert_eq!(
        request_url(ep, "testkey"),
        "https://api.themoviedb.org/3/tv/4629/season/1/episode/20?api_key=testkey&language=en-US",
    );
}

#[test]
fn request_url_uses_each_catalog_identifier() {
    let atlantis = EpisodeReference { show: Show::Atlantis, season: 5, episode: 19 };
    assert_eq!(
        request_url(atlantis, "k"),
        "https://api.themoviedb.org/3/tv/2290/season/5/episode/19?api_key=k&language=en-US",
    );
    let universe = EpisodeReference { show: Show::Universe, season: 2, episode: 3 };
    assert_eq!(
        request_url(universe, "k"),
        "https://api.themoviedb.org/3/tv/5148/season/2/episode/3?api_key=k&language=en-US",
    );
}
