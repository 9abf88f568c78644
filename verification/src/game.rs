use vstd::prelude::*;

verus! {

/// What a [`Game`] stands for in contracts.
pub struct GameView {
    pub title: Seq<char>,
    pub paste_url: Seq<char>,
}

/// One candidate taken from a listing page: the title of the item and the
/// locator of its encrypted paste.
#[derive(Debug)]
pub struct Game {
    paste_url: String,
    title: String,
}

impl View for Game {
    type V = GameView;

    closed spec fn view(&self) -> GameView {
        GameView { title: self.title@, paste_url: self.paste_url@ }
    }
}

impl Game {
    /// A candidate with this title and this paste locator.
    pub fn new(title: String, paste_url: String) -> (game: Game)
        ensures
            game@ == (GameView { title: title@, paste_url: paste_url@ }),
    {
        Game { paste_url, title }
    }

    /// The title of the item.
    pub fn title(&self) -> (title: &String)
        ensures
            title@ == self@.title,
    {
        &self.title
    }

    /// The locator of the paste of the item.
    pub fn paste_url(&self) -> (paste_url: &String)
        ensures
            paste_url@ == self@.paste_url,
    {
        &self.paste_url
    }
}

impl Clone for Game {
    fn clone(&self) -> (copy: Game)
        ensures
            copy@ == self@,
    {
        Game { paste_url: self.paste_url.clone(), title: self.title.clone() }
    }
}

/// The views of a sequence of games, in order.
pub open spec fn game_views(games: Seq<Game>) -> Seq<GameView> {
    games.map_values(|g: Game| g@)
}

} // verus!
