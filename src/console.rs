use vstd::prelude::*;

use crate::ring::{keep_last, lemma_keep_last_push, CircularBuffer};
use crate::text::{lines_of, split_lines, texts};

verus! {

/// Default number of days an entry stays in the trash before it is purged.
pub const DEFAULT_TIME_THRESHOLD: u8 = 30;

/// Default number of lines the console keeps.
pub const DEFAULT_MAX_CONSOLE_LINES: u16 = 1000;

/// The user's settings: the age threshold in days, and the size of the
/// console.
pub struct ConfigApp {
    time_threshold: u8,
    max_console_lines: u16,
}

impl ConfigApp {
    pub fn new(time_threshold: u8, max_console_lines: u16) -> (r: Self)
        ensures
            r.time_threshold() == time_threshold,
            r.max_console_lines() == max_console_lines,
    {
        ConfigApp { time_threshold, max_console_lines }
    }

    /// Number of days an entry must have spent in the trash to be selected.
    #[verifier::when_used_as_spec(spec_time_threshold)]
    pub fn time_threshold(&self) -> (r: u8)
        ensures
            r == self.spec_time_threshold(),
    {
        self.time_threshold
    }

    pub closed spec fn spec_time_threshold(&self) -> u8 {
        self.time_threshold
    }

    /// Number of lines the console keeps.
    #[verifier::when_used_as_spec(spec_max_console_lines)]
    pub fn max_console_lines(&self) -> (r: u16)
        ensures
            r == self.spec_max_console_lines(),
    {
        self.max_console_lines
    }

    pub closed spec fn spec_max_console_lines(&self) -> u16 {
        self.max_console_lines
    }

    pub fn set_time_threshold(&mut self, days: u8)
        ensures
            final(self).time_threshold() == days,
            final(self).max_console_lines() == old(self).max_console_lines(),
    {
        self.time_threshold = days;
    }
}

impl Default for ConfigApp {
    fn default() -> (r: Self)
        ensures
            r.time_threshold() == DEFAULT_TIME_THRESHOLD,
            r.max_console_lines() == DEFAULT_MAX_CONSOLE_LINES,
    {
        ConfigApp {
            time_threshold: DEFAULT_TIME_THRESHOLD,
            max_console_lines: DEFAULT_MAX_CONSOLE_LINES,
        }
    }
}

/// The console: a bounded log of text lines, oldest first.
pub struct ConsoleApp {
    console_queue: CircularBuffer<String>,
}

impl View for ConsoleApp {
    type V = Seq<Seq<char>>;

    /// The stored lines, oldest first.
    closed spec fn view(&self) -> Seq<Seq<char>> {
        texts(self.console_queue@)
    }
}

/// Trimming commutes with taking the text of each line.
proof fn lemma_texts_keep_last(s: Seq<String>, n: nat)
    ensures
        texts(keep_last(s, n)) == keep_last(texts(s), n),
{
    assert(texts(keep_last(s, n)) =~= keep_last(texts(s), n));
}

impl ConsoleApp {
    /// The number of lines the console keeps at most.
    pub closed spec fn max_lines(&self) -> nat {
        self.console_queue.cap()
    }

    pub closed spec fn wf(&self) -> bool {
        self.console_queue.wf()
    }

    /// What a well-formed console guarantees to its users.
    pub proof fn lemma_wf(&self)
        requires
            self.wf(),
        ensures
            0 < self.max_lines(),
            self@.len() <= self.max_lines(),
    {
        self.console_queue.lemma_wf();
    }

    /// An empty console that keeps at most `max_lines` lines.
    pub fn new(max_lines: usize) -> (r: Self)
        requires
            max_lines > 0,
        ensures
            r.wf(),
            r@ == Seq::<Seq<char>>::empty(),
            r.max_lines() == max_lines,
    {
        let r = ConsoleApp { console_queue: CircularBuffer::new(max_lines) };
        assert(r@ =~= Seq::<Seq<char>>::empty());
        r
    }

    /// A console that holds a restored buffer of lines.
    pub fn from_buffer(console_queue: CircularBuffer<String>) -> (r: Self)
        requires
            console_queue.wf(),
        ensures
            r.wf(),
            r@ == texts(console_queue@),
            r.max_lines() == console_queue.cap(),
    {
        ConsoleApp { console_queue }
    }

    /// The buffer of lines, for saving it.
    pub fn buffer(&self) -> (r: &CircularBuffer<String>)
        ensures
            r.wf() == self.wf(),
            texts(r@) == self@,
            r.cap() == self.max_lines(),
    {
        &self.console_queue
    }

    /// At most `count` lines, taken from the oldest end of the log.
    pub fn get_last_console_messages(&self, count: usize) -> (r: Vec<&String>)
        requires
            self.wf(),
        ensures
            texts(r@.unref()) == if count < self@.len() {
                self@.take(count as int)
            } else {
                self@
            },
    {
        if self.console_queue.is_empty() {
            let r: Vec<&String> = Vec::new();
            assert(texts(r@.unref()) =~= self@);
            return r;
        }
        let all = self.console_queue.iter();
        let n = if count < all.len() {
            count
        } else {
            all.len()
        };
        let mut r: Vec<&String> = Vec::new();
        let mut i: usize = 0;
        while i < n
            invariant
                n <= all@.len(),
                all@ == self.console_queue@.as_ref(),
                i <= n,
                r@ == all@.take(i as int),
            decreases n - i,
        {
            r.push(all[i]);
            i = i + 1;
            assert(r@ =~= all@.take(i as int));
        }
        assert(texts(r@.unref()) =~= if count < self@.len() {
            self@.take(count as int)
        } else {
            self@
        });
        r
    }

    /// Appends one line to the log, dropping the oldest line when full.
    pub fn push_line(&mut self, line: String)
        requires
            old(self).wf(),
        ensures
            final(self).wf(),
            final(self).max_lines() == old(self).max_lines(),
            final(self)@ == keep_last(old(self)@.push(line@), old(self).max_lines()),
    {
        let ghost before = self.console_queue@;
        self.console_queue.push(line);
        proof {
            lemma_texts_keep_last(before.push(line), self.max_lines());
            assert(texts(before.push(line)) =~= texts(before).push(line@));
        }
    }

    /// Appends each line of `text`, in order; an empty text changes nothing.
    pub fn add_to_buffer(&mut self, text: &str)
        requires
            old(self).wf(),
        ensures
            final(self).wf(),
            final(self).max_lines() == old(self).max_lines(),
            final(self)@ == keep_last(old(self)@ + lines_of(text@), old(self).max_lines()),
    {
        proof {
            self.lemma_wf();
        }
        if text.is_empty() {
            assert(lines_of(text@) =~= Seq::<Seq<char>>::empty());
            assert(self@ + lines_of(text@) =~= self@);
            return ;
        }
        let ghost start = self@;
        let ghost n = self.max_lines();
        let lines = split_lines(text);
        let ghost ls = texts(lines@);
        assert(start =~= keep_last(start + ls.take(0), n));
        for line in it: lines
            invariant
                self.wf(),
                self.max_lines() == n,
                n > 0,
                it.seq() == lines@,
                ls == texts(lines@),
                self@ == keep_last(start + ls.take(it.index()), n),
        {
            proof {
                lemma_keep_last_push(start + ls.take(it.index()), line@, n);
                assert((start + ls.take(it.index())).push(line@) =~= start + ls.take(
                    it.index() + 1,
                ));
            }
            self.push_line(line);
        }
        assert(ls.take(ls.len() as int) =~= ls);
    }

    /// Empties the log.
    pub fn _flush_storage(&mut self)
        requires
            old(self).wf(),
        ensures
            final(self).wf(),
            final(self).max_lines() == old(self).max_lines(),
            final(self)@ == Seq::<Seq<char>>::empty(),
    {
        if self.console_queue.is_empty() {
            assert(self@ =~= Seq::<Seq<char>>::empty());
            return ;
        }
        self.console_queue.clear();
        assert(self@ =~= Seq::<Seq<char>>::empty());
    }

    /// Whether the log holds no line.
    pub fn is_empty(&self) -> (r: bool)
        requires
            self.wf(),
        ensures
            r == (self@.len() == 0),
    {
        self.console_queue.is_empty()
    }
}

impl Default for ConsoleApp {
    fn default() -> (r: Self)
        ensures
            r.wf(),
            r@ == Seq::<Seq<char>>::empty(),
            r.max_lines() == DEFAULT_MAX_CONSOLE_LINES,
    {
        let config_app = ConfigApp::default();
        ConsoleApp::new(config_app.max_console_lines() as usize)
    }
}

/// Adding an empty text leaves the log as it was.
pub proof fn lemma_add_empty_text(c: ConsoleApp)
    requires
        c.wf(),
    ensures
        keep_last(c@ + lines_of(Seq::empty()), c.max_lines()) == c@,
{
    c.lemma_wf();
    assert(lines_of(Seq::<char>::empty()) =~= Seq::<Seq<char>>::empty());
    assert(c@ + lines_of(Seq::empty()) =~= c@);
}

} // verus!
