//! The task collection: its entries, the operations that change it, and the
//! selection and rendering of listings.

use vstd::prelude::*;
use vstd::string::*;
use crate::due::{current_moment, minute_text, minute_text_of, resolve_local, CivilDateTime, DueDate};
use crate::text::{decimal, decimal_text, join, joined, lowercase, lowercase_of, texts};

verus! {

/// How urgent a task is.
#[derive(Debug, Clone, Copy, PartialEq, Eq, Structural)]
pub enum Priority {
    High,
    Medium,
    Low,
}

/// The name a priority is written and shown by.
pub open spec fn priority_text(p: Priority) -> Seq<char> {
    match p {
        Priority::High => "high"@,
        Priority::Medium => "medium"@,
        Priority::Low => "low"@,
    }
}

/// The priority that a lowercased word names, or the complaint about the
/// word as it was given.
pub open spec fn parsed_priority(lower: Seq<char>, given: Seq<char>) -> Result<Priority, Seq<char>> {
    if lower == "high"@ {
        Ok(Priority::High)
    } else if lower == "medium"@ {
        Ok(Priority::Medium)
    } else if lower == "low"@ {
        Ok(Priority::Low)
    } else {
        Err("Invalid priority '"@ + given + "'. Allowed values: high, medium, low"@)
    }
}

/// A parse result and its model agree: the same priority, or the same message.
pub open spec fn priority_result_is(r: Result<Priority, String>, m: Result<Priority, Seq<char>>) -> bool {
    match r {
        Ok(p) => m == Ok::<Priority, Seq<char>>(p),
        Err(e) => m == Err::<Priority, Seq<char>>(e@),
    }
}

impl Priority {
    /// The priority's name.
    pub fn to_string(&self) -> (r: String)
        ensures
            r@ == priority_text(*self),
    {
        match self {
            Priority::High => String::from_str("high"),
            Priority::Medium => String::from_str("medium"),
            Priority::Low => String::from_str("low"),
        }
    }

    /// Reads a priority from a word that has already been lowercased;
    /// `given` is the word as the user wrote it, quoted in the complaint.
    pub fn from_lowercase(lower: &str, given: &str) -> (r: Result<Priority, String>)
        ensures
            priority_result_is(r, parsed_priority(lower@, given@)),
    {
        let word = String::from_str(lower);
        if word == String::from_str("high") {
            Ok(Priority::High)
        } else if word == String::from_str("medium") {
            Ok(Priority::Medium)
        } else if word == String::from_str("low") {
            Ok(Priority::Low)
        } else {
            let mut msg = String::from_str("Invalid priority '");
            msg.append(given);
            msg.append("'. Allowed values: high, medium, low");
            Err(msg)
        }
    }

    /// Reads a priority, ignoring case.
    pub fn from_str(s: &str) -> (r: Result<Priority, String>)
        ensures
            priority_result_is(r, parsed_priority(lowercase_of(s@), s@)),
    {
        let lower = lowercase(s);
        Priority::from_lowercase(lower.as_str(), s)
    }
}

/// Why an operation on the collection failed.
#[derive(Debug)]
pub enum TodoError {
    /// Reading or writing the store failed; the field is the cause's message.
    Io(String),
    /// No task has this id.
    NotFound(usize),
    /// The store's content is not a valid collection; the field says why.
    Json(String),
    /// A civil time that the local zone maps to no instant, or to two.
    InvalidDateTime,
}

/// The message an error is reported with.
pub open spec fn error_text(e: TodoError) -> Seq<char> {
    match e {
        TodoError::Io(m) => "IO error: "@ + m@,
        TodoError::Json(m) => "Json error: "@ + m@,
        TodoError::NotFound(id) => "Todo with id "@ + decimal_text(id as nat) + " not found"@,
        TodoError::InvalidDateTime => "Invalid DateTime"@,
    }
}

impl TodoError {
    /// The message to report.
    pub fn to_string(&self) -> (r: String)
        ensures
            r@ == error_text(*self),
    {
        match self {
            TodoError::Io(m) => {
                let mut r = String::from_str("IO error: ");
                r.append(m.as_str());
                r
            },
            TodoError::Json(m) => {
                let mut r = String::from_str("Json error: ");
                r.append(m.as_str());
                r
            },
            TodoError::NotFound(id) => {
                let mut r = String::from_str("Todo with id ");
                let n = decimal(*id);
                r.append(n.as_str());
                r.append(" not found");
                r
            },
            TodoError::InvalidDateTime => String::from_str("Invalid DateTime"),
        }
    }
}

/// One entry of the list.
#[derive(Debug)]
pub struct Todo {
    pub id: usize,
    pub text: String,
    pub done: bool,
    pub priority: Option<Priority>,
    pub tags: Vec<String>,
    pub due_date: Option<DueDate>,
}

/// The mathematical value of an entry.
pub ghost struct TodoView {
    pub id: usize,
    pub text: Seq<char>,
    pub done: bool,
    pub priority: Option<Priority>,
    pub tags: Seq<Seq<char>>,
    pub due_date: Option<DueDate>,
}

impl View for Todo {
    type V = TodoView;

    open spec fn view(&self) -> TodoView {
        TodoView {
            id: self.id,
            text: self.text@,
            done: self.done,
            priority: self.priority,
            tags: texts(self.tags@),
            due_date: self.due_date,
        }
    }
}

/// The values of a sequence of entries, item by item.
pub open spec fn views(items: Seq<Todo>) -> Seq<TodoView> {
    Seq::new(items.len(), |i: int| items[i]@)
}

/// No two entries share an id.
pub open spec fn unique_ids(s: Seq<TodoView>) -> bool {
    forall|i: int, j: int| 0 <= i < j < s.len() ==> s[i].id != s[j].id
}

/// Some entry has this id.
pub open spec fn has_id(s: Seq<TodoView>, id: usize) -> bool {
    exists|i: int| 0 <= i < s.len() && s[i].id == id
}

/// Where the entry with this id stands, if there is one.
pub open spec fn position(s: Seq<TodoView>, id: usize) -> int {
    choose|i: int| 0 <= i < s.len() && s[i].id == id
}

/// The largest id in use, 0 for an empty collection.
pub open spec fn max_id(s: Seq<TodoView>) -> nat
    decreases s.len(),
{
    if s.len() == 0 {
        0
    } else if max_id(s.drop_last()) >= s.last().id {
        max_id(s.drop_last())
    } else {
        s.last().id as nat
    }
}

/// An entry with its completion flag replaced.
pub open spec fn with_done(t: TodoView, done: bool) -> TodoView {
    TodoView { done, ..t }
}

/// The collection after the entry with this id is marked complete.
pub open spec fn marked(s: Seq<TodoView>, id: usize) -> Seq<TodoView> {
    Seq::new(s.len(), |i: int| if s[i].id == id { with_done(s[i], true) } else { s[i] })
}

/// The collection after the completion flag of the entry with this id is flipped.
pub open spec fn toggled(s: Seq<TodoView>, id: usize) -> Seq<TodoView> {
    Seq::new(s.len(), |i: int| if s[i].id == id { with_done(s[i], !s[i].done) } else { s[i] })
}

/// The entry that `add` appends.
pub open spec fn fresh_task(
    s: Seq<TodoView>,
    text: Seq<char>,
    priority: Option<Priority>,
    tags: Seq<Seq<char>>,
    due_date: Option<DueDate>,
) -> TodoView {
    TodoView { id: (max_id(s) + 1) as usize, text, done: false, priority, tags, due_date }
}

/// Every id in a collection is at most `max_id`, so the id that `add`
/// assigns, one more than `max_id`, is larger than every id in use.
pub proof fn lemma_ids_bounded(s: Seq<TodoView>)
    ensures
        forall|i: int| 0 <= i < s.len() ==> (#[trigger] s[i]).id <= max_id(s),
    decreases s.len(),
{
    if s.len() > 0 {
        lemma_ids_bounded(s.drop_last());
        assert forall|i: int| 0 <= i < s.len() implies (#[trigger] s[i]).id <= max_id(s) by {
            if i < s.len() - 1 {
                assert(s.drop_last()[i] == s[i]);
            }
        }
    }
}

/// Removing an entry never raises `max_id`, and keeps the ids distinct.
pub proof fn lemma_remove_keeps_order(s: Seq<TodoView>, i: int)
    requires
        0 <= i < s.len(),
    ensures
        unique_ids(s) ==> unique_ids(s.remove(i)),
        max_id(s.remove(i)) <= max_id(s),
    decreases s.len(),
{
    let r = s.remove(i);
    if unique_ids(s) {
        assert forall|a: int, b: int| 0 <= a < b < r.len() implies r[a].id != r[b].id by {
            let a0 = if a < i { a } else { a + 1 };
            let b0 = if b < i { b } else { b + 1 };
            assert(r[a] == s[a0] && r[b] == s[b0]);
        }
    }
    if i == s.len() - 1 {
        assert(r =~= s.drop_last());
    } else {
        lemma_remove_keeps_order(s.drop_last(), i);
        assert(r.drop_last() =~= s.drop_last().remove(i));
        assert(r.last() == s.last());
    }
}

/// Flipping the same entry twice gives the collection back.
pub proof fn lemma_toggle_twice(s: Seq<TodoView>, id: usize)
    ensures
        toggled(toggled(s, id), id) == s,
{
    assert(toggled(toggled(s, id), id) =~= s);
}

/// The whole set of tasks, in the order in which they were added.
pub struct TodoList {
    todos: Vec<Todo>,
}

impl View for TodoList {
    type V = Seq<TodoView>;

    closed spec fn view(&self) -> Seq<TodoView> {
        views(self.todos@)
    }
}

impl TodoList {
    /// The collection's invariant: no two tasks share an id.
    pub open spec fn wf(&self) -> bool {
        unique_ids(self@)
    }

    /// The empty collection.
    pub fn new() -> (r: TodoList)
        ensures
            r.wf(),
            r@ == Seq::<TodoView>::empty(),
    {
        let r = TodoList { todos: Vec::new() };
        assert(r@ =~= Seq::<TodoView>::empty());
        r
    }

    /// Takes over stored tasks as a collection, unless two of them share an id.
    pub fn from_todos(todos: Vec<Todo>) -> (r: Option<TodoList>)
        ensures
            r.is_some() == unique_ids(views(todos@)),
            r matches Some(list) ==> list.wf() && list@ == views(todos@),
    {
        let ghost s = views(todos@);
        let mut j: usize = 0;
        while j < todos.len()
            invariant
                j <= todos.len(),
                s == views(todos@),
                forall|a: int, b: int| 0 <= a < b < j ==> s[a].id != s[b].id,
            decreases todos.len() - j,
        {
            let mut i: usize = 0;
            while i < j
                invariant
                    i <= j < todos.len(),
                    s == views(todos@),
                    forall|a: int| 0 <= a < i ==> s[a].id != s[j as int].id,
                decreases j - i,
            {
                if todos[i].id == todos[j].id {
                    assert(s[i as int].id == s[j as int].id);
                    return None;
                }
                i = i + 1;
            }
            j = j + 1;
        }
        Some(TodoList { todos })
    }

    /// The largest id in use, 0 where there is no task.
    pub fn highest_id(&self) -> (m: usize)
        ensures
            m == max_id(self@),
    {
        let mut m: usize = 0;
        let mut i: usize = 0;
        while i < self.todos.len()
            invariant
                i <= self.todos.len(),
                m == max_id(self@.take(i as int)),
            decreases self.todos.len() - i,
        {
            assert(self@.take(i + 1).drop_last() =~= self@.take(i as int));
            assert(self@.take(i + 1).last() == self.todos@[i as int]@);
            if self.todos[i].id > m {
                m = self.todos[i].id;
            }
            i = i + 1;
        }
        assert(self@.take(i as int) =~= self@);
        m
    }

    /// Appends a task whose due date, if any, is already an instant. The new
    /// task gets the id after the largest one in use, which no task has.
    pub fn add_resolved(
        &mut self,
        text: String,
        priority: Option<Priority>,
        tags: Vec<String>,
        due_date: Option<DueDate>,
    )
        requires
            old(self).wf(),
            max_id(old(self)@) < usize::MAX,
        ensures
            final(self).wf(),
            final(self)@ == old(self)@.push(
                fresh_task(old(self)@, text@, priority, texts(tags@), due_date),
            ),
            forall|i: int|
                0 <= i < old(self)@.len() ==> (#[trigger] old(self)@[i]).id < max_id(old(self)@) + 1,
            max_id(final(self)@) == max_id(old(self)@) + 1,
    {
        let id = self.highest_id() + 1;
        proof {
            lemma_ids_bounded(self@);
        }
        self.todos.push(Todo { id, text, done: false, priority, tags, due_date });
        assert(self@ =~= old(self)@.push(
            fresh_task(old(self)@, text@, priority, texts(tags@), due_date),
        ));
        assert(self@.drop_last() =~= old(self)@);
    }

    /// Appends a task. A due date is given as a civil time and resolved in
    /// the machine's time zone; where that gives no single instant the call
    /// fails and nothing changes. Whatever instant the zone gives is stored.
    pub fn add(
        &mut self,
        text: String,
        priority: Option<Priority>,
        tags: Vec<String>,
        due: Option<CivilDateTime>,
    ) -> (r: Result<(), TodoError>)
        requires
            old(self).wf(),
            max_id(old(self)@) < usize::MAX,
        ensures
            final(self).wf(),
            match r {
                Ok(()) => exists|d: Option<DueDate>|
                    d.is_some() == due.is_some() && final(self)@ == old(self)@.push(
                        #[trigger] fresh_task(old(self)@, text@, priority, texts(tags@), d),
                    ),
                Err(e) => e == TodoError::InvalidDateTime && due.is_some() && final(self)@ == old(
                    self,
                )@,
            },
            due.is_none() ==> r.is_ok(),
            r.is_ok() ==> max_id(final(self)@) == max_id(old(self)@) + 1,
    {
        let due_date: Option<DueDate> = match due {
            Some(civil) => match resolve_local(&civil) {
                Some(d) => Some(d),
                None => {
                    return Err(TodoError::InvalidDateTime);
                },
            },
            None => None,
        };
        self.add_resolved(text, priority, tags, due_date);
        Ok(())
    }

    /// Where the task with this id stands, if there is one.
    pub fn find(&self, id: usize) -> (r: Option<usize>)
        requires
            self.wf(),
        ensures
            r.is_some() == has_id(self@, id),
            r matches Some(i) ==> i == position(self@, id) && i < self@.len() && self@[i as int].id
                == id,
    {
        let mut i: usize = 0;
        while i < self.todos.len()
            invariant
                self.wf(),
                i <= self.todos.len(),
                forall|k: int| 0 <= k < i ==> self@[k].id != id,
            decreases self.todos.len() - i,
        {
            if self.todos[i].id == id {
                proof {
                    let p = position(self@, id);
                    assert(self@[i as int].id == id);
                    assert(0 <= p < self@.len() && self@[p].id == id);
                    assert(p == i) by {
                        if p < i {
                            assert(self@[p].id != self@[i as int].id);
                        } else if i < p {
                            assert(self@[i as int].id != self@[p].id);
                        }
                    }
                }
                return Some(i);
            }
            i = i + 1;
        }
        None
    }

    fn set_done_at(&mut self, i: usize, done: bool)
        requires
            i < old(self)@.len(),
        ensures
            final(self)@ == old(self)@.update(i as int, with_done(old(self)@[i as int], done)),
    {
        let mut t = self.todos.remove(i);
        t.done = done;
        self.todos.insert(i, t);
        assert(self@ =~= old(self)@.update(i as int, with_done(old(self)@[i as int], done)));
    }

    /// Marks the task with this id complete.
    pub fn mark_done(&mut self, id: usize) -> (r: Result<(), TodoError>)
        requires
            old(self).wf(),
        ensures
            final(self).wf(),
            match r {
                Ok(()) => has_id(old(self)@, id) && final(self)@ == marked(old(self)@, id),
                Err(e) => !has_id(old(self)@, id) && e == TodoError::NotFound(id) && final(self)@
                    == old(self)@,
            },
    {
        match self.find(id) {
            Some(i) => {
                self.set_done_at(i, true);
                assert(self@ =~= marked(old(self)@, id));
                Ok(())
            },
            None => Err(TodoError::NotFound(id)),
        }
    }

    /// Flips the completion flag of the task with this id.
    pub fn toggle(&mut self, id: usize) -> (r: Result<(), TodoError>)
        requires
            old(self).wf(),
        ensures
            final(self).wf(),
            match r {
                Ok(()) => has_id(old(self)@, id) && final(self)@ == toggled(old(self)@, id),
                Err(e) => !has_id(old(self)@, id) && e == TodoError::NotFound(id) && final(self)@
                    == old(self)@,
            },
    {
        match self.find(id) {
            Some(i) => {
                let done = !self.todos[i].done;
                self.set_done_at(i, done);
                assert(self@ =~= toggled(old(self)@, id));
                Ok(())
            },
            None => Err(TodoError::NotFound(id)),
        }
    }

    /// Deletes the task with this id; the others keep their order and ids.
    pub fn remove(&mut self, id: usize) -> (r: Result<(), TodoError>)
        requires
            old(self).wf(),
        ensures
            final(self).wf(),
            max_id(final(self)@) <= max_id(old(self)@),
            match r {
                Ok(()) => has_id(old(self)@, id) && final(self)@ == old(self)@.remove(
                    position(old(self)@, id),
                ) && !has_id(final(self)@, id),
                Err(e) => !has_id(old(self)@, id) && e == TodoError::NotFound(id) && final(self)@
                    == old(self)@,
            },
    {
        match self.find(id) {
            Some(i) => {
                self.todos.remove(i);
                proof {
                    lemma_remove_keeps_order(old(self)@, i as int);
                    assert(self@ =~= old(self)@.remove(i as int));
                    if has_id(self@, id) {
                        let k = choose|k: int| 0 <= k < self@.len() && self@[k].id == id;
                        let k0 = if k < i { k } else { k + 1 };
                        assert(old(self)@[k0].id == id);
                    }
                }
                Ok(())
            },
            None => Err(TodoError::NotFound(id)),
        }
    }

    /// All tasks, in order.
    pub fn list(&self) -> (r: &[Todo])
        ensures
            views(r@) == self@,
    {
        self.todos.as_slice()
    }
}

/// A task passes a priority filter when it has exactly that priority.
pub open spec fn priority_matches(t: TodoView, filter: Option<Priority>) -> bool {
    match filter {
        Some(p) => t.priority == Some(p),
        None => true,
    }
}

/// A task passes a tag filter when one of its tags is exactly that text.
pub open spec fn tag_matches(t: TodoView, filter: Option<Seq<char>>) -> bool {
    match filter {
        Some(tag) => t.tags.contains(tag),
        None => true,
    }
}

/// A task passes a due filter when it has a due date that is not after the limit.
pub open spec fn due_matches(t: TodoView, limit: Option<DueDate>) -> bool {
    match limit {
        Some(l) => match t.due_date {
            Some(d) => d.not_after(l),
            None => false,
        },
        None => true,
    }
}

/// A task is listed when it passes every filter that is given.
pub open spec fn task_matches(
    t: TodoView,
    priority: Option<Priority>,
    tag: Option<Seq<char>>,
    limit: Option<DueDate>,
) -> bool {
    priority_matches(t, priority) && tag_matches(t, tag) && due_matches(t, limit)
}

/// The tasks that are listed, in collection order.
pub open spec fn selected(
    s: Seq<TodoView>,
    priority: Option<Priority>,
    tag: Option<Seq<char>>,
    limit: Option<DueDate>,
) -> Seq<TodoView>
    decreases s.len(),
{
    if s.len() == 0 {
        Seq::empty()
    } else if task_matches(s.last(), priority, tag, limit) {
        selected(s.drop_last(), priority, tag, limit).push(s.last())
    } else {
        selected(s.drop_last(), priority, tag, limit)
    }
}

/// The text of an optional tag filter.
pub open spec fn tag_text(tag: Option<&str>) -> Option<Seq<char>> {
    match tag {
        Some(t) => Some(t@),
        None => None,
    }
}

/// The completion marker of a line.
pub open spec fn status_text(done: bool) -> Seq<char> {
    if done {
        "\u{2714}"@
    } else {
        " "@
    }
}

/// The priority column of a line: the name, or nothing.
pub open spec fn priority_part(p: Option<Priority>) -> Seq<char> {
    match p {
        Some(p) => priority_text(p),
        None => Seq::empty(),
    }
}

/// The tags column of a line: nothing, or a blank and the tags in brackets,
/// separated by commas.
pub open spec fn tags_part(tags: Seq<Seq<char>>) -> Seq<char> {
    if tags.len() == 0 {
        Seq::empty()
    } else {
        " ["@ + joined(tags, ","@) + "]"@
    }
}

/// The due column of a line: the date and minute at the stored offset, or
/// nothing.
pub open spec fn due_part(due_date: Option<DueDate>) -> Seq<char> {
    match due_date {
        Some(d) => match minute_text_of(d.secs, d.nanos, d.offset) {
            Some(s) => s,
            None => Seq::empty(),
        },
        None => Seq::empty(),
    }
}

/// A task's line, given the text of its due column.
pub open spec fn line_text(t: TodoView, due: Seq<char>) -> Seq<char> {
    "["@ + status_text(t.done) + "] "@ + decimal_text(t.id as nat) + ": "@ + t.text + " "@
        + priority_part(t.priority) + " "@ + tags_part(t.tags) + " "@ + due
}

/// A task's line.
pub open spec fn task_line(t: TodoView) -> Seq<char> {
    line_text(t, due_part(t.due_date))
}

/// The lines of a sequence of tasks.
pub open spec fn lines_of(ts: Seq<TodoView>) -> Seq<Seq<char>> {
    Seq::new(ts.len(), |i: int| task_line(ts[i]))
}

/// What a listing shows: one line for each selected task, or a single
/// notice where none is selected.
pub open spec fn listing(
    s: Seq<TodoView>,
    priority: Option<Priority>,
    tag: Option<Seq<char>>,
    limit: Option<DueDate>,
) -> Seq<Seq<char>> {
    if selected(s, priority, tag, limit).len() == 0 {
        seq!["No todos found"@]
    } else {
        lines_of(selected(s, priority, tag, limit))
    }
}

/// Filtering by a priority and a tag together selects exactly the tasks
/// that each filter selects on its own: a task passes both if and only if it
/// passes either alone, and the listing is the priority listing filtered
/// once more by the tag.
pub proof fn lemma_filter_conjunction(s: Seq<TodoView>, priority: Priority, tag: Seq<char>)
    ensures
        forall|t: TodoView|
            #[trigger] task_matches(t, Some(priority), Some(tag), None) == (task_matches(
                t,
                Some(priority),
                None,
                None,
            ) && task_matches(t, None, Some(tag), None)),
        selected(s, Some(priority), Some(tag), None) == selected(
            selected(s, Some(priority), None, None),
            None,
            Some(tag),
            None,
        ),
    decreases s.len(),
{
    if s.len() > 0 {
        lemma_filter_conjunction(s.drop_last(), priority, tag);
        let by_priority = selected(s.drop_last(), Some(priority), None, None);
        if task_matches(s.last(), Some(priority), None, None) {
            assert(by_priority.push(s.last()).drop_last() =~= by_priority);
        }
    }
}

/// A task stands in a selection exactly when it stands in the collection
/// and passes the filters.
pub proof fn lemma_selected_contains(
    s: Seq<TodoView>,
    priority: Option<Priority>,
    tag: Option<Seq<char>>,
    limit: Option<DueDate>,
    t: TodoView,
)
    ensures
        selected(s, priority, tag, limit).contains(t) == (s.contains(t) && task_matches(
            t,
            priority,
            tag,
            limit,
        )),
    decreases s.len(),
{
    let sel = selected(s, priority, tag, limit);
    if s.len() > 0 {
        let init = s.drop_last();
        let sel0 = selected(init, priority, tag, limit);
        lemma_selected_contains(init, priority, tag, limit, t);
        if s.contains(t) {
            let k = choose|k: int| 0 <= k < s.len() && s[k] == t;
            if k < s.len() - 1 {
                assert(init[k] == t);
            }
        }
        if init.contains(t) {
            let k = choose|k: int| 0 <= k < init.len() && init[k] == t;
            assert(s[k] == t);
        }
        assert(s[s.len() - 1] == s.last());
        if task_matches(s.last(), priority, tag, limit) {
            if sel.contains(t) {
                let k = choose|k: int| 0 <= k < sel.len() && sel[k] == t;
                if k < sel0.len() {
                    assert(sel0[k] == t);
                }
            }
            if sel0.contains(t) {
                let k = choose|k: int| 0 <= k < sel0.len() && sel0[k] == t;
                assert(sel[k] == t);
            }
            assert(sel[sel.len() - 1] == s.last());
        }
    }
}

impl Todo {
    /// Whether one of the task's tags is exactly `tag`.
    pub fn has_tag(&self, tag: &str) -> (r: bool)
        ensures
            r == self@.tags.contains(tag@),
    {
        let needle = String::from_str(tag);
        let mut i: usize = 0;
        while i < self.tags.len()
            invariant
                i <= self.tags.len(),
                needle@ == tag@,
                forall|k: int| 0 <= k < i ==> self.tags@[k]@ != tag@,
            decreases self.tags.len() - i,
        {
            if self.tags[i] == needle {
                assert(self@.tags[i as int] == tag@);
                return true;
            }
            i = i + 1;
        }
        assert forall|k: int| 0 <= k < self@.tags.len() implies self@.tags[k] != tag@ by {
            assert(self@.tags[k] == self.tags@[k]@);
        }
        false
    }

    /// Whether the task passes every filter that is given.
    pub fn matches(
        &self,
        priority: Option<Priority>,
        tag: Option<&str>,
        limit: Option<DueDate>,
    ) -> (r: bool)
        ensures
            r == task_matches(self@, priority, tag_text(tag), limit),
    {
        let priority_match = match priority {
            Some(p) => match self.priority {
                Some(own) => own == p,
                None => false,
            },
            None => true,
        };
        let tag_match = match tag {
            Some(t) => self.has_tag(t),
            None => true,
        };
        let due_match = match limit {
            Some(l) => match self.due_date {
                Some(d) => d.is_not_after(&l),
                None => false,
            },
            None => true,
        };
        priority_match && tag_match && due_match
    }

    /// The task's line, given the text of its due column.
    pub fn format_line(&self, due: &str) -> (r: String)
        ensures
            r@ == line_text(self@, due@),
    {
        let mut r = String::from_str("[");
        r.append(if self.done { "\u{2714}" } else { " " });
        r.append("] ");
        let id = decimal(self.id);
        r.append(id.as_str());
        r.append(": ");
        r.append(self.text.as_str());
        r.append(" ");
        match self.priority {
            Some(p) => {
                let name = p.to_string();
                r.append(name.as_str());
            },
            None => {
                assert(r@ + Seq::<char>::empty() =~= r@);
            },
        }
        r.append(" ");
        if self.tags.len() > 0 {
            let mut tags = String::from_str(" [");
            let inner = join(&self.tags, ",");
            tags.append(inner.as_str());
            tags.append("]");
            r.append(tags.as_str());
        } else {
            assert(r@ + Seq::<char>::empty() =~= r@);
        }
        r.append(" ");
        r.append(due);
        r
    }

    /// The task's line. The due column is what chrono prints for the stored
    /// instant at the stored offset.
    pub fn render_line(&self) -> (r: String)
        ensures
            r@ == task_line(self@),
    {
        let due = match self.due_date {
            Some(d) => match minute_text(&d) {
                Some(s) => s,
                None => String::new(),
            },
            None => String::new(),
        };
        self.format_line(due.as_str())
    }
}

impl TodoList {
    /// The lines of a listing whose due filter, if any, is already an instant.
    pub fn render(
        &self,
        filter_priority: Option<Priority>,
        filter_tag: Option<&str>,
        limit: Option<DueDate>,
    ) -> (lines: Vec<String>)
        ensures
            texts(lines@) == listing(self@, filter_priority, tag_text(filter_tag), limit),
    {
        let ghost tag = tag_text(filter_tag);
        let mut lines: Vec<String> = Vec::new();
        let mut i: usize = 0;
        while i < self.todos.len()
            invariant
                i <= self.todos.len(),
                tag == tag_text(filter_tag),
                texts(lines@) == lines_of(selected(self@.take(i as int), filter_priority, tag, limit)),
            decreases self.todos.len() - i,
        {
            let ghost before = selected(self@.take(i as int), filter_priority, tag, limit);
            let ghost shown = texts(lines@);
            assert(self@.take(i + 1).drop_last() =~= self@.take(i as int));
            assert(self@.take(i + 1).last() == self.todos@[i as int]@);
            if self.todos[i].matches(filter_priority, filter_tag, limit) {
                let line = self.todos[i].render_line();
                lines.push(line);
                assert(texts(lines@) =~= shown.push(line@));
                assert(lines_of(before.push(self.todos@[i as int]@)) =~= lines_of(before).push(
                    line@,
                ));
            }
            i = i + 1;
        }
        assert(self@.take(i as int) =~= self@);
        if lines.len() == 0 {
            lines.push(String::from_str("No todos found"));
            assert(texts(lines@) =~= seq!["No todos found"@]);
        }
        lines
    }

    /// The lines of a listing. A due filter is given as a civil time and
    /// resolved in the machine's time zone; where that gives no single
    /// instant, the current moment takes its place. The listing is the one
    /// that `render` gives for whatever instant came out.
    pub fn print(
        &self,
        filter_priority: Option<Priority>,
        filter_tag: Option<&str>,
        filter_due: Option<CivilDateTime>,
    ) -> (lines: Vec<String>)
        ensures
            exists|limit: Option<DueDate>|
                limit.is_some() == filter_due.is_some() && texts(lines@) == #[trigger] listing(
                    self@,
                    filter_priority,
                    tag_text(filter_tag),
                    limit,
                ),
    {
        let limit = match filter_due {
            Some(civil) => match resolve_local(&civil) {
                Some(d) => Some(d),
                None => Some(current_moment()),
            },
            None => None,
        };
        self.render(filter_priority, filter_tag, limit)
    }
}

} // verus!
