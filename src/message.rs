use vstd::prelude::*;
use vstd::string::*;

verus! {

/// The characters of each word.
pub open spec fn word_texts(words: Seq<String>) -> Seq<Seq<char>> {
    words.map_values(|w: String| w@)
}

/// The words in order, separated by single spaces.
pub open spec fn joined(words: Seq<Seq<char>>) -> Seq<char>
    decreases words.len(),
{
    if words.len() == 0 {
        Seq::empty()
    } else if words.len() == 1 {
        words[0]
    } else {
        joined(words.drop_last()) + seq![' '] + words.last()
    }
}

/// The notification text for a finished command.
pub open spec fn completion_text(words: Seq<Seq<char>>, status: Seq<char>) -> Seq<char> {
    "Command `"@ + joined(words) + "` completed with status: "@ + status
}

/// Joins the command's words with single spaces.
pub fn join_words(words: &Vec<String>) -> (r: String)
    ensures
        r@ == joined(word_texts(words@)),
{
    let ghost texts = word_texts(words@);
    let mut r = String::new();
    let mut i: usize = 0;
    while i < words.len()
        invariant
            i <= words.len(),
            texts == word_texts(words@),
            r@ == joined(texts.take(i as int)),
        decreases words.len() - i,
    {
        proof {
            reveal_strlit(" ");
            assert(texts.take(i + 1).drop_last() =~= texts.take(i as int));
            if i == 0 {
                assert(r@ =~= Seq::<char>::empty());
            }
        }
        if i > 0 {
            r.append(" ");
        }
        r.append(words[i].as_str());
        i = i + 1;
    }
    assert(texts.take(words.len() as int) =~= texts);
    r
}

/// The message sent when a command finishes: the command's words joined by
/// spaces, and the rendering of its exit status.
pub fn completion_message(command: &Vec<String>, status: &str) -> (r: String)
    ensures
        r@ == completion_text(word_texts(command@), status@),
{
    let mut r = String::from_str("Command `");
    let words = join_words(command);
    r.append(words.as_str());
    r.append("` completed with status: ");
    r.append(status);
    r
}

} // verus!
