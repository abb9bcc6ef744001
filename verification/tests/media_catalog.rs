use media_containers::catalog::Catalog;
use media_containers::media::Media;

#[test]
fn describes_book() {
    let m = Media::Book {
        title: String::from("Bad Book"),
        author: String::from("Bad Author"),
    };
    assert_eq!(m.description(), "Book: Bad Book Bad Author");
}

#[test]
fn describes_movie() {
    let m = Media::Movie {
        title: String::from("Good Movie"),
        director: String::from("Good Director"),
    };
    assert_eq!(m.description(), "Movie: Good Movie Good Director");
}

#[test]
fn describes_audiobook() {
    let m = Media::Audiobook {
        title: String::from("An Audiobook"),
    };
    assert_eq!(m.description(), "Audiobook: An Audiobook");
}

#[test]
fn describes_podcast() {
    assert_eq!(Media::Podcast(10).description(), "Podcast: 10");
}

#[test]
fn describes_placeholder() {
    assert_eq!(Media::Placeholder.description(), "Placeholder");
}

#[test]
fn describes_podcast_edge_numbers() {
    assert_eq!(Media::Podcast(0).description(), "Podcast: 0");
    assert_eq!(Media::Podcast(7).description(), "Podcast: 7");
    assert_eq!(Media::Podcast(100).description(), "Podcast: 100");
    assert_eq!(Media::Podcast(4294967295).description(), "Podcast: 4294967295");
}

#[test]
fn conditional_description_named_kinds() {
    let b = Media::Book {
        title: String::from("Bad Book"),
        author: String::from("Bad Author"),
    };
    assert_eq!(b.description_using_conditionals(), "Book: Bad Book Bad Author");
    let m = Media::Movie {
        title: String::from("Good Movie"),
        director: String::from("Good Director"),
    };
    assert_eq!(m.description_using_conditionals(), "Movie: Good Movie Good Director");
    let a = Media::Audiobook {
        title: String::from("An Audiobook"),
    };
    assert_eq!(a.description_using_conditionals(), "Audiobook: An Audiobook");
}

#[test]
fn conditional_description_fallback() {
    assert_eq!(Media::Podcast(10).description_using_conditionals(), "Media Description");
    assert_eq!(Media::Placeholder.description_using_conditionals(), "Media Description");
}

#[test]
fn empty_catalog_has_nothing() {
    let c = Catalog::new();
    assert_eq!(c.len(), 0);
    assert!(c.get_by_index(0).is_none());
    assert!(c.get_by_index(100).is_none());
}

#[test]
fn catalog_preserves_order() {
    let mut c = Catalog::new();
    c.add(Media::Audiobook {
        title: String::from("An Audiobook"),
    });
    c.add(Media::Movie {
        title: String::from("Good Movie"),
        director: String::from("Good Director"),
    });
    c.add(Media::Book {
        title: String::from("Bad Book"),
        author: String::from("Bad Author"),
    });
    assert_eq!(c.len(), 3);
    assert_eq!(c.get_by_index(0).unwrap().description(), "Audiobook: An Audiobook");
    assert_eq!(c.get_by_index(1).unwrap().description(), "Movie: Good Movie Good Director");
    assert_eq!(c.get_by_index(2).unwrap().description(), "Book: Bad Book Bad Author");
}

#[test]
fn catalog_bounds() {
    let mut c = Catalog::new();
    c.add(Media::Podcast(10));
    c.add(Media::Placeholder);
    assert_eq!(c.len(), 2);
    assert!(c.get_by_index(0).is_some());
    assert!(c.get_by_index(1).is_some());
    assert!(c.get_by_index(2).is_none());
    assert!(c.get_by_index(usize::MAX).is_none());
    assert!(matches!(c.get_by_index(0), Some(Media::Podcast(10))));
    assert!(matches!(c.get_by_index(1), Some(Media::Placeholder)));
}

#[test]
fn catalog_mixed_kinds_all_described() {
    let mut c = Catalog::new();
    c.add(Media::Audiobook {
        title: String::from("An Audiobook"),
    });
    c.add(Media::Podcast(10));
    c.add(Media::Placeholder);
    let mut seen = Vec::new();
    let mut i = 0;
    while let Some(m) = c.get_by_index(i) {
        seen.push(m.description());
        i += 1;
    }
    assert_eq!(
        seen,
        vec![
            String::from("Audiobook: An Audiobook"),
            String::from("Podcast: 10"),
            String::from("Placeholder"),
        ]
    );
}
