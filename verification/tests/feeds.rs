use folwup_core::feed::times::Timestamp;
use folwup_core::feed::{self, Feed, Item, Iter};

fn items_of(input: &str) -> Vec<Item<'_>> {
    let mut it = Iter::with_str(input).expect("a supported document");
    let mut out = Vec::new();
    while let Some(item) = it.next() {
        out.push(item);
    }
    out
}

#[test]
fn atom_feed_metadata() {
    let input = "<feed>\
        <title>My Feed</title>\
        <subtitle>All the news</subtitle>\
        <link href=\"https://example.com/\"/>\
        <entry><title>ignored here</title></entry>\
        </feed>";
    let f = feed::parse_feed(input).expect("an atom feed");
    assert_eq!(
        f,
        Feed {
            title: Some("My Feed"),
            description: Some("All the news"),
            home_page_url: Some("https://example.com/"),
        }
    );
}

#[test]
fn rss_feed_metadata() {
    let input = "<rss><channel>\
        <title>Channel Title</title>\
        <description>Channel Description</description>\
        <link>https://example.com/</link>\
        </channel></rss>";
    let f = feed::parse_feed(input).expect("an rss feed");
    assert_eq!(
        f,
        Feed {
            title: Some("Channel Title"),
            description: Some("Channel Description"),
            home_page_url: Some("https://example.com/"),
        }
    );
}

#[test]
fn per_family_entry_points_agree_with_dispatch() {
    let atom = "<feed><title>A</title></feed>";
    let rss = "<rss><channel><title>R</title></channel></rss>";
    assert_eq!(feed::atom::parse_feed(atom), feed::parse_feed(atom));
    assert_eq!(feed::rss::parse_feed(rss), feed::parse_feed(rss));
    assert_eq!(feed::atom::parse_feed(rss), None);
    assert_eq!(feed::rss::parse_feed(atom), None);
}

#[test]
fn no_links_leave_urls_unset() {
    let atom = "<feed>\
        <title>T</title>\
        <entry><title>E</title><id>1</id></entry>\
        </feed>";
    let f = feed::parse_feed(atom).unwrap();
    assert_eq!(f.home_page_url, None);
    let items = items_of(atom);
    assert_eq!(items.len(), 1);
    assert_eq!(items[0].url, None);
    assert_eq!(items[0].external_url, None);

    let rss = "<rss><channel><title>T</title><item><title>E</title></item></channel></rss>";
    let f = feed::parse_feed(rss).unwrap();
    assert_eq!(f.home_page_url, None);
    let items = items_of(rss);
    assert_eq!(items.len(), 1);
    assert_eq!(items[0].url, None);
    assert_eq!(items[0].external_url, None);
}

#[test]
fn single_unlabeled_link_becomes_url() {
    let input = "<feed>\
        <link href=\"https://example.com/home\"/>\
        <entry><link href=\"https://example.com/post\"/></entry>\
        </feed>";
    let f = feed::parse_feed(input).unwrap();
    assert_eq!(f.home_page_url, Some("https://example.com/home"));
    let items = items_of(input);
    assert_eq!(items[0].url, Some("https://example.com/post"));
    assert_eq!(items[0].external_url, Some("https://example.com/post"));
}

#[test]
fn self_link_beats_alternate_for_internal() {
    let input = "<feed><entry>\
        <link href=\"A\" rel=\"alternate\" type=\"text/html\"/>\
        <link href=\"B\" rel=\"self\"/>\
        </entry></feed>";
    let items = items_of(input);
    assert_eq!(items[0].url, Some("B"));
    assert_eq!(items[0].external_url, Some("A"));
}

#[test]
fn tie_on_self_keeps_typed_existing() {
    let input = "<feed><entry>\
        <link href=\"A\" rel=\"self\" type=\"text/html\"/>\
        <link href=\"B\" rel=\"self\"/>\
        </entry></feed>";
    let items = items_of(input);
    assert_eq!(items[0].url, Some("A"));
}

#[test]
fn tie_on_self_takes_html_incoming_over_untyped_existing() {
    let input = "<feed><entry>\
        <link href=\"A\" rel=\"self\"/>\
        <link href=\"B\" rel=\"self\" type=\"text/html\"/>\
        </entry></feed>";
    let items = items_of(input);
    assert_eq!(items[0].url, Some("B"));
}

#[test]
fn unlabeled_link_displaces_alternate() {
    let input = "<feed><entry>\
        <link href=\"A\" rel=\"alternate\"/>\
        <link href=\"B\"/>\
        </entry></feed>";
    let items = items_of(input);
    assert_eq!(items[0].url, Some("B"));
    assert_eq!(items[0].external_url, Some("B"));
}

#[test]
fn unlabeled_link_does_not_displace_self() {
    let input = "<feed><entry>\
        <link href=\"A\" rel=\"self\"/>\
        <link href=\"B\"/>\
        </entry></feed>";
    let items = items_of(input);
    assert_eq!(items[0].url, Some("A"));
    assert_eq!(items[0].external_url, Some("A"));
}

#[test]
fn relation_labels_match_case_insensitively() {
    let input = "<feed><entry>\
        <link href=\"A\" rel=\"alternate\"/>\
        <link href=\"B\" rel=\"SELF\"/>\
        </entry></feed>";
    let items = items_of(input);
    assert_eq!(items[0].url, Some("B"));
}

#[test]
fn via_link_wins_external_slot() {
    let input = "<feed><entry>\
        <link href=\"A\" rel=\"self\"/>\
        <link href=\"V\" rel=\"via\"/>\
        </entry></feed>";
    let items = items_of(input);
    assert_eq!(items[0].url, Some("A"));
    assert_eq!(items[0].external_url, Some("V"));
}

#[test]
fn source_links_compete_for_external_only() {
    let input = "<feed><entry>\
        <link href=\"A\" rel=\"self\"/>\
        <source><link href=\"S\" rel=\"via\"/></source>\
        </entry></feed>";
    let items = items_of(input);
    assert_eq!(items[0].url, Some("A"));
    assert_eq!(items[0].external_url, Some("S"));
}

#[test]
fn scalar_fields_are_first_wins() {
    let input = "<feed><entry>\
        <title>A</title>\
        <title>B</title>\
        <id>first</id>\
        <id>second</id>\
        <summary>s1</summary>\
        <summary>s2</summary>\
        <content>c1</content>\
        <content>c2</content>\
        </entry></feed>";
    let items = items_of(input);
    assert_eq!(items[0].title, Some("A"));
    assert_eq!(items[0].id, Some("first"));
    assert_eq!(items[0].summary, Some("s1"));
    assert_eq!(items[0].content, Some("c1"));
}

#[test]
fn atom_entry_timestamps() {
    let input = "<feed><entry>\
        <updated>1970-01-01T00:00:01Z</updated>\
        <published>Wed, 01 Jan 2020 00:00:00 GMT</published>\
        </entry></feed>";
    let items = items_of(input);
    assert_eq!(items[0].modified_at, Some(Timestamp { secs: 1, nanos: 0 }));
    assert_eq!(items[0].published_at, Some(Timestamp { secs: 1577836800, nanos: 0 }));
}

#[test]
fn malformed_date_leaves_field_unset_only() {
    let input = "<feed><entry>\
        <title>kept</title>\
        <updated>never</updated>\
        </entry></feed>";
    let items = items_of(input);
    assert_eq!(items.len(), 1);
    assert_eq!(items[0].title, Some("kept"));
    assert_eq!(items[0].modified_at, None);
}

#[test]
fn rss_item_fields() {
    let input = "<rss><channel><item>\
        <title>Item Title 1</title>\
        <link>https://example.com/1</link>\
        <description>Item Description 1</description>\
        <guid>g-1</guid>\
        <pubDate>Wed, 01 Jan 2020 00:00:00 GMT</pubDate>\
        </item></channel></rss>";
    let items = items_of(input);
    assert_eq!(items.len(), 1);
    assert_eq!(items[0].title, Some("Item Title 1"));
    assert_eq!(items[0].url, Some("https://example.com/1"));
    assert_eq!(items[0].summary, Some("Item Description 1"));
    assert_eq!(items[0].id, Some("g-1"));
    assert_eq!(items[0].published_at, Some(Timestamp { secs: 1577836800, nanos: 0 }));
    assert_eq!(items[0].external_url, None);
    assert_eq!(items[0].content, None);
    assert_eq!(items[0].modified_at, None);
}

#[test]
fn unsupported_formats_yield_nothing() {
    let json = "{\"version\": \"https://jsonfeed.org/version/1\"}";
    let html = "<html><body>hello</body></html>";
    let plain = "just some text";
    for input in [json, html, plain, ""] {
        assert_eq!(feed::parse_feed(input), None);
        assert!(Iter::with_str(input).is_none());
    }
}

#[test]
fn three_entries_yield_three_items_in_order() {
    let input = "<feed>\
        <entry><title>one</title></entry>\
        <entry><title>two</title></entry>\
        <entry><title>three</title></entry>\
        </feed>";
    let mut it = Iter::with_str(input).unwrap();
    assert_eq!(it.next().unwrap().title, Some("one"));
    assert_eq!(it.next().unwrap().title, Some("two"));
    assert_eq!(it.next().unwrap().title, Some("three"));
    assert!(it.next().is_none());
    assert!(it.next().is_none());
}

#[test]
fn parsing_twice_is_stable() {
    let atom = "<feed>\
        <title>T</title>\
        <link href=\"H\" rel=\"self\"/>\
        <entry><title>E</title><link href=\"L\"/>\
        <updated>1970-01-01T00:00:01Z</updated></entry>\
        <entry><id>x</id></entry>\
        </feed>";
    assert_eq!(feed::parse_feed(atom), feed::parse_feed(atom));
    assert_eq!(items_of(atom), items_of(atom));

    let rss = "<rss><channel><title>T</title>\
        <item><title>E</title><link>L</link></item>\
        </channel></rss>";
    assert_eq!(feed::parse_feed(rss), feed::parse_feed(rss));
    assert_eq!(items_of(rss), items_of(rss));
}

#[test]
fn feed_level_links_disambiguate_for_home_page() {
    let input = "<feed>\
        <link href=\"A\" rel=\"alternate\"/>\
        <link href=\"B\" rel=\"self\"/>\
        </feed>";
    let f = feed::parse_feed(input).unwrap();
    assert_eq!(f.home_page_url, Some("B"));
}

#[test]
fn missing_container_yields_nothing() {
    // Detected as the right family, but no feed or channel container.
    let rss_without_channel = "<rss><other>x</other></rss>";
    assert_eq!(feed::parse_feed(rss_without_channel), None);
    assert!(Iter::with_str(rss_without_channel).is_none());
}

#[test]
fn family_specific_sequences() {
    let atom = "<feed><entry><title>a</title></entry></feed>";
    let mut it = Iter::with_atom(atom).unwrap();
    assert_eq!(it.next().unwrap().title, Some("a"));
    assert!(it.next().is_none());
    let rss = "<rss><channel><item><title>r</title></item></channel></rss>";
    let mut it = Iter::with_rss(rss).unwrap();
    assert_eq!(it.next().unwrap().title, Some("r"));
    assert!(it.next().is_none());
    assert!(Iter::with_atom(rss).is_none());
    assert!(Iter::with_rss(atom).is_none());
}

#[test]
fn only_the_first_feed_container_counts() {
    let input = "<feed><title>first</title></feed><feed><title>second</title></feed>";
    let f = feed::parse_feed(input).unwrap();
    assert_eq!(f.title, Some("first"));
}
