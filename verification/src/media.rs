use vstd::prelude::*;
use vstd::string::StringExecFns;

verus! {

/// A closed tagged union of media kinds, each carrying kind-specific
/// fields. Exactly one variant is active per value, and every dispatch over
/// it is an exhaustive `match` (or a complete conditional chain), so adding
/// a variant forces every dispatch site to be updated at compile time.
#[derive(Debug)]
pub enum Media {
    Book { title: String, author: String },
    Movie { title: String, director: String },
    Audiobook { title: String },
    Podcast(u32),
    Placeholder,
}

/// The digit character for `d`, expected in `0 ..= 9`.
pub open spec fn spec_digit(d: int) -> char
    recommends
        0 <= d <= 9,
{
    if d == 0 {
        '0'
    } else if d == 1 {
        '1'
    } else if d == 2 {
        '2'
    } else if d == 3 {
        '3'
    } else if d == 4 {
        '4'
    } else if d == 5 {
        '5'
    } else if d == 6 {
        '6'
    } else if d == 7 {
        '7'
    } else if d == 8 {
        '8'
    } else {
        '9'
    }
}

/// The decimal numeral of `n`: most significant digit first, no sign, no
/// leading zeros (a single `'0'` for zero itself).
pub open spec fn spec_decimal(n: int) -> Seq<char>
    recommends
        n >= 0,
    decreases n,
{
    if n < 10 {
        seq![spec_digit(n)]
    } else {
        spec_decimal(n / 10).push(spec_digit(n % 10))
    }
}

/// The exact description of `m`, one fixed form per variant.
pub open spec fn spec_description(m: Media) -> Seq<char> {
    match m {
        Media::Book { title, author } => "Book: "@ + title@ + " "@ + author@,
        Media::Movie { title, director } => "Movie: "@ + title@ + " "@ + director@,
        Media::Audiobook { title } => "Audiobook: "@ + title@,
        Media::Podcast(episode_number) => "Podcast: "@ + spec_decimal(episode_number as int),
        Media::Placeholder => "Placeholder"@,
    }
}

/// What the conditional form of the description returns: the same strings
/// for the variants its `if let` chain names, and a fixed fallback for the
/// rest.
pub open spec fn spec_description_conditionals(m: Media) -> Seq<char> {
    match m {
        Media::Book { title, author } => "Book: "@ + title@ + " "@ + author@,
        Media::Movie { title, director } => "Movie: "@ + title@ + " "@ + director@,
        Media::Audiobook { title } => "Audiobook: "@ + title@,
        Media::Podcast(_) => "Media Description"@,
        Media::Placeholder => "Media Description"@,
    }
}

/// The single digit of `d < 10`, as a string slice.
fn digit_str(d: u32) -> (r: &'static str)
    requires
        d < 10,
    ensures
        r@ == seq![spec_digit(d as int)],
{
    let r: &'static str = if d == 0 {
        "0"
    } else if d == 1 {
        "1"
    } else if d == 2 {
        "2"
    } else if d == 3 {
        "3"
    } else if d == 4 {
        "4"
    } else if d == 5 {
        "5"
    } else if d == 6 {
        "6"
    } else if d == 7 {
        "7"
    } else if d == 8 {
        "8"
    } else {
        "9"
    };
    proof {
        reveal_strlit("0");
        reveal_strlit("1");
        reveal_strlit("2");
        reveal_strlit("3");
        reveal_strlit("4");
        reveal_strlit("5");
        reveal_strlit("6");
        reveal_strlit("7");
        reveal_strlit("8");
        reveal_strlit("9");
        assert(r@ =~= seq![spec_digit(d as int)]);
    }
    r
}

/// Appends the decimal numeral of `n` to `s`.
fn push_decimal(s: &mut String, n: u32)
    ensures
        final(s)@ == old(s)@ + spec_decimal(n as int),
    decreases n,
{
    if n < 10 {
        s.append(digit_str(n));
    } else {
        push_decimal(s, n / 10);
        s.append(digit_str(n % 10));
        proof {
            assert(s@ =~= old(s)@ + spec_decimal(n as int));
        }
    }
}

impl Media {
    /// The description, dispatched by an exhaustive `match`: one fixed,
    /// kind-specific string per variant, with no fallback path.
    pub fn description(&self) -> (r: String)
        ensures
            r@ == spec_description(*self),
    {
        match self {
            Media::Book { title, author } => {
                let mut s = "Book: ".to_owned();
                s.append(title.as_str());
                s.append(" ");
                s.append(author.as_str());
                s
            },
            Media::Movie { title, director } => {
                let mut s = "Movie: ".to_owned();
                s.append(title.as_str());
                s.append(" ");
                s.append(director.as_str());
                s
            },
            Media::Audiobook { title } => {
                let mut s = "Audiobook: ".to_owned();
                s.append(title.as_str());
                s
            },
            Media::Podcast(episode_number) => {
                let mut s = "Podcast: ".to_owned();
                push_decimal(&mut s, *episode_number);
                s
            },
            Media::Placeholder => "Placeholder".to_owned(),
        }
    }

    /// The description built from a chain of `if let` conditionals instead
    /// of a `match`; the chain names only the book, movie and audiobook
    /// variants, and every other kind gets the fixed fallback string.
    pub fn description_using_conditionals(&self) -> (r: String)
        ensures
            r@ == spec_description_conditionals(*self),
    {
        if let Media::Book { title, author } = self {
            let mut s = "Book: ".to_owned();
            s.append(title.as_str());
            s.append(" ");
            s.append(author.as_str());
            s
        } else if let Media::Movie { title, director } = self {
            let mut s = "Movie: ".to_owned();
            s.append(title.as_str());
            s.append(" ");
            s.append(director.as_str());
            s
        } else if let Media::Audiobook { title } = self {
            let mut s = "Audiobook: ".to_owned();
            s.append(title.as_str());
            s
        } else {
            "Media Description".to_owned()
        }
    }
}

} // verus!
