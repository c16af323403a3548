//! What holds of every snapshot that the repository produces, and what each
//! operation leaves untouched.

use vstd::prelude::*;
use crate::db::{first_position, is_first_at, Request};
use crate::models::{DBStateView, EpicView, Status};

verus! {

impl DBStateView {
    /// Every id in use was handed out by the counter: it lies between 1 and the last
    /// id, and the counter fits the machine's 32 bits.
    pub open spec fn ids_from_counter(self) -> bool {
        &&& self.last_item_id <= u32::MAX
        &&& forall|id: u32| #[trigger] self.epics.contains_key(id) ==> 1 <= id <= self.last_item_id
        &&& forall|id: u32| #[trigger]
            self.stories.contains_key(id) ==> 1 <= id <= self.last_item_id
    }

    /// No id names both an epic and a story.
    pub open spec fn kinds_apart(self) -> bool {
        forall|id: u32| !(#[trigger] self.epics.contains_key(id) && self.stories.contains_key(id))
    }

    /// Every story that an epic lists exists.
    pub open spec fn no_dangling_story(self) -> bool {
        forall|epic_id: u32, i: int|
            self.epics.contains_key(epic_id) && 0 <= i < self.epics[epic_id].stories.len()
                ==> self.stories.contains_key(#[trigger] self.epics[epic_id].stories[i])
    }

    /// No story is listed twice, neither by one epic nor by two.
    pub open spec fn listed_once(self) -> bool {
        forall|first: u32, i: int, second: u32, j: int|
            self.epics.contains_key(first) && 0 <= i < self.epics[first].stories.len()
                && self.epics.contains_key(second) && 0 <= j < self.epics[second].stories.len()
                && #[trigger] self.epics[first].stories[i] == #[trigger] self.epics[second].stories[j]
                ==> first == second && i == j
    }

    /// The snapshot is consistent: ids come from the one counter, epics and stories
    /// share no id, and the lists of the epics name existing stories, each once.
    pub open spec fn is_consistent(self) -> bool {
        &&& self.ids_from_counter()
        &&& self.kinds_apart()
        &&& self.no_dangling_story()
        &&& self.listed_once()
    }

    /// The snapshot after the requests `requests`, one after the other.
    pub open spec fn after_all(self, requests: Seq<Request>) -> DBStateView
        decreases requests.len(),
    {
        if requests.len() == 0 {
            self
        } else {
            self.after_all(requests.drop_last()).after(requests.last())
        }
    }

    /// The ids that the requests `requests` return, one after the other.
    pub open spec fn ids_created_by(self, requests: Seq<Request>) -> Seq<nat>
        decreases requests.len(),
    {
        if requests.len() == 0 {
            Seq::empty()
        } else {
            let earlier = self.ids_created_by(requests.drop_last());
            match self.after_all(requests.drop_last()).created_id(requests.last()) {
                Some(id) => earlier.push(id),
                None => earlier,
            }
        }
    }
}

/// Whether `request` may be put to a consistent snapshot: an epic is created without
/// stories of its own.
pub open spec fn is_proper(request: Request) -> bool {
    request matches Request::CreateEpic { epic } ==> epic.stories.len() == 0
}

/// The empty snapshot is consistent.
pub proof fn empty_is_consistent()
    ensures
        DBStateView::empty().is_consistent(),
{
}

/// The counter never goes back: no request lowers the last id, and only a creation
/// that goes through raises it, by one.
pub proof fn counter_is_monotone(snapshot: DBStateView, request: Request)
    ensures
        snapshot.after(request).last_item_id >= snapshot.last_item_id,
        snapshot.after(request).last_item_id == snapshot.last_item_id + (if snapshot.created_id(
            request,
        ) is Some {
            1nat
        } else {
            0nat
        }),
{
}

/// A created item gets an id that no epic and no story has or had: the id is one
/// above the last id, it becomes the last id, and afterwards it names the new item
/// and nothing of the other kind.
pub proof fn created_id_is_fresh(snapshot: DBStateView, request: Request)
    requires
        snapshot.ids_from_counter(),
        snapshot.kinds_apart(),
        snapshot.last_item_id < u32::MAX,
        snapshot.created_id(request) is Some,
    ensures
        ({
            let id = snapshot.created_id(request)->Some_0;
            let after = snapshot.after(request);
            &&& id == snapshot.last_item_id + 1
            &&& after.last_item_id == id
            &&& !snapshot.epics.contains_key(id as u32)
            &&& !snapshot.stories.contains_key(id as u32)
            &&& after.epics.contains_key(id as u32) <==> request is CreateEpic
            &&& after.stories.contains_key(id as u32) <==> request is CreateStory
        }),
{
}

/// Over any sequence of requests the ids returned count up one by one from the id
/// after the last: from the empty snapshot they are 1, 2, 3 and so on, whether an
/// epic or a story is created, so that none comes twice.
pub proof fn created_ids_count_up(snapshot: DBStateView, requests: Seq<Request>)
    ensures
        ({
            let ids = snapshot.ids_created_by(requests);
            &&& ids.len() <= requests.len()
            &&& snapshot.after_all(requests).last_item_id == snapshot.last_item_id + ids.len()
            &&& forall|k: int| 0 <= k < ids.len() ==> #[trigger] ids[k] == snapshot.last_item_id + 1 + k
        }),
    decreases requests.len(),
{
    if requests.len() > 0 {
        created_ids_count_up(snapshot, requests.drop_last());
        counter_is_monotone(snapshot.after_all(requests.drop_last()), requests.last());
    }
}

/// Every request keeps a consistent snapshot consistent.
pub proof fn request_keeps_consistency(snapshot: DBStateView, request: Request)
    requires
        snapshot.is_consistent(),
        is_proper(request),
        snapshot.created_id(request) is Some ==> snapshot.last_item_id < u32::MAX,
    ensures
        snapshot.after(request).is_consistent(),
{
    let after = snapshot.after(request);
    if snapshot.refusal(request) is Some {
        return ;
    }
    match request {
        Request::Nothing => {},
        Request::CreateEpic { epic } => {
            assert(after.listed_once()) by {
                assert forall|first: u32, i: int, second: u32, j: int|
                    after.epics.contains_key(first) && 0 <= i < after.epics[first].stories.len()
                        && after.epics.contains_key(second) && 0 <= j
                        < after.epics[second].stories.len()
                        && #[trigger] after.epics[first].stories[i]
                        == #[trigger] after.epics[second].stories[j] implies first == second && i
                    == j by {
                    assert(snapshot.epics[first].stories[i] == snapshot.epics[second].stories[j]);
                }
            }
            assert(after.no_dangling_story()) by {
                assert forall|epic_id: u32, i: int|
                    after.epics.contains_key(epic_id) && 0 <= i
                        < after.epics[epic_id].stories.len() implies after.stories.contains_key(
                    #[trigger] after.epics[epic_id].stories[i],
                ) by {
                    assert(snapshot.stories.contains_key(snapshot.epics[epic_id].stories[i]));
                }
            }
        },
        Request::CreateStory { story, epic_id } => {
            let old_list = snapshot.epics[epic_id].stories;
            assert(after.no_dangling_story()) by {
                assert forall|e: u32, i: int|
                    after.epics.contains_key(e) && 0 <= i
                        < after.epics[e].stories.len() implies after.stories.contains_key(
                    #[trigger] after.epics[e].stories[i],
                ) by {
                    if e == epic_id && i == old_list.len() {
                    } else {
                        assert(snapshot.stories.contains_key(snapshot.epics[e].stories[i]));
                    }
                }
            }
            assert(after.listed_once()) by {
                assert forall|first: u32, i: int, second: u32, j: int|
                    after.epics.contains_key(first) && 0 <= i < after.epics[first].stories.len()
                        && after.epics.contains_key(second) && 0 <= j
                        < after.epics[second].stories.len()
                        && #[trigger] after.epics[first].stories[i]
                        == #[trigger] after.epics[second].stories[j] implies first == second && i
                    == j by {
                    let is_new_i = first == epic_id && i == old_list.len();
                    let is_new_j = second == epic_id && j == old_list.len();
                    if !is_new_i {
                        assert(snapshot.stories.contains_key(snapshot.epics[first].stories[i]));
                    }
                    if !is_new_j {
                        assert(snapshot.stories.contains_key(snapshot.epics[second].stories[j]));
                    }
                }
            }
        },
        Request::DeleteEpic { epic_id } => {
            let gone = snapshot.epics[epic_id].stories;
            assert(after.no_dangling_story()) by {
                assert forall|e: u32, i: int|
                    after.epics.contains_key(e) && 0 <= i
                        < after.epics[e].stories.len() implies after.stories.contains_key(
                    #[trigger] after.epics[e].stories[i],
                ) by {
                    let story_id = snapshot.epics[e].stories[i];
                    assert(snapshot.stories.contains_key(story_id));
                    if gone.contains(story_id) {
                        let k = choose|k: int| 0 <= k < gone.len() && gone[k] == story_id;
                        assert(snapshot.epics[epic_id].stories[k] == snapshot.epics[e].stories[i]);
                    }
                }
            }
            assert(after.listed_once()) by {
                assert forall|first: u32, i: int, second: u32, j: int|
                    after.epics.contains_key(first) && 0 <= i < after.epics[first].stories.len()
                        && after.epics.contains_key(second) && 0 <= j
                        < after.epics[second].stories.len()
                        && #[trigger] after.epics[first].stories[i]
                        == #[trigger] after.epics[second].stories[j] implies first == second && i
                    == j by {
                    assert(snapshot.epics[first].stories[i] == snapshot.epics[second].stories[j]);
                }
            }
        },
        Request::DeleteStory { epic_id, story_id } => {
            let old_list = snapshot.epics[epic_id].stories;
            let at = first_position(old_list, story_id);
            let k = choose|k: int| 0 <= k < old_list.len() && old_list[k] == story_id;
            assert(is_first_at(old_list, story_id, k)) by {
                assert forall|j: int| 0 <= j < k implies old_list[j] != story_id by {
                    if old_list[j] == story_id {
                        assert(snapshot.epics[epic_id].stories[j]
                            == snapshot.epics[epic_id].stories[k]);
                    }
                }
            }
            assert(is_first_at(old_list, story_id, at));
            let new_list = old_list.remove(at);
            assert(after.epics[epic_id].stories == new_list);
            assert forall|i: int| 0 <= i < new_list.len() implies new_list[i] == old_list[if i
                < at {
                i
            } else {
                i + 1
            }] by {}
            assert(after.no_dangling_story()) by {
                assert forall|e: u32, i: int|
                    after.epics.contains_key(e) && 0 <= i
                        < after.epics[e].stories.len() implies after.stories.contains_key(
                    #[trigger] after.epics[e].stories[i],
                ) by {
                    if e == epic_id {
                        let from = if i < at {
                            i
                        } else {
                            i + 1
                        };
                        assert(snapshot.stories.contains_key(snapshot.epics[epic_id].stories[from]));
                        assert(snapshot.epics[epic_id].stories[from] != story_id) by {
                            if snapshot.epics[epic_id].stories[from] == story_id {
                                assert(snapshot.epics[epic_id].stories[from]
                                    == snapshot.epics[epic_id].stories[at]);
                            }
                        }
                    } else {
                        assert(snapshot.stories.contains_key(snapshot.epics[e].stories[i]));
                        assert(snapshot.epics[e].stories[i] != story_id) by {
                            if snapshot.epics[e].stories[i] == story_id {
                                assert(snapshot.epics[e].stories[i]
                                    == snapshot.epics[epic_id].stories[at]);
                            }
                        }
                    }
                }
            }
            assert(after.listed_once()) by {
                assert forall|first: u32, i: int, second: u32, j: int|
                    after.epics.contains_key(first) && 0 <= i < after.epics[first].stories.len()
                        && after.epics.contains_key(second) && 0 <= j
                        < after.epics[second].stories.len()
                        && #[trigger] after.epics[first].stories[i]
                        == #[trigger] after.epics[second].stories[j] implies first == second && i
                    == j by {
                    let from_i = if first == epic_id && i >= at {
                        i + 1
                    } else {
                        i
                    };
                    let from_j = if second == epic_id && j >= at {
                        j + 1
                    } else {
                        j
                    };
                    assert(snapshot.epics[first].stories[from_i]
                        == snapshot.epics[second].stories[from_j]);
                }
            }
        },
        Request::UpdateEpicStatus { epic_id, status } => {
            assert(after.no_dangling_story()) by {
                assert forall|e: u32, i: int|
                    after.epics.contains_key(e) && 0 <= i
                        < after.epics[e].stories.len() implies after.stories.contains_key(
                    #[trigger] after.epics[e].stories[i],
                ) by {
                    assert(snapshot.stories.contains_key(snapshot.epics[e].stories[i]));
                }
            }
            assert(after.listed_once()) by {
                assert forall|first: u32, i: int, second: u32, j: int|
                    after.epics.contains_key(first) && 0 <= i < after.epics[first].stories.len()
                        && after.epics.contains_key(second) && 0 <= j
                        < after.epics[second].stories.len()
                        && #[trigger] after.epics[first].stories[i]
                        == #[trigger] after.epics[second].stories[j] implies first == second && i
                    == j by {
                    assert(snapshot.epics[first].stories[i] == snapshot.epics[second].stories[j]);
                }
            }
        },
        Request::UpdateStoryStatus { story_id, status } => {
            assert(after.no_dangling_story()) by {
                assert forall|e: u32, i: int|
                    after.epics.contains_key(e) && 0 <= i
                        < after.epics[e].stories.len() implies after.stories.contains_key(
                    #[trigger] after.epics[e].stories[i],
                ) by {
                    assert(snapshot.stories.contains_key(snapshot.epics[e].stories[i]));
                }
            }
        },
    }
}

/// Starting from a consistent snapshot, every snapshot that a sequence of requests
/// leads to is consistent, as long as the ids fit the machine's 32 bits.
pub proof fn requests_keep_consistency(snapshot: DBStateView, requests: Seq<Request>)
    requires
        snapshot.is_consistent(),
        forall|i: int| 0 <= i < requests.len() ==> is_proper(#[trigger] requests[i]),
        snapshot.last_item_id + requests.len() <= u32::MAX,
    ensures
        snapshot.after_all(requests).is_consistent(),
    decreases requests.len(),
{
    if requests.len() > 0 {
        let earlier = requests.drop_last();
        assert forall|i: int| 0 <= i < earlier.len() implies is_proper(#[trigger] earlier[i]) by {
            assert(earlier[i] == requests[i]);
        }
        requests_keep_consistency(snapshot, earlier);
        created_ids_count_up(snapshot, earlier);
        assert(is_proper(requests[requests.len() - 1]));
        request_keeps_consistency(snapshot.after_all(earlier), requests.last());
    }
}

/// Deleting an epic removes the epic and every story that it listed, and nothing
/// else: every other epic and every story that it did not list stay as they were, and
/// so does the last id.
pub proof fn delete_epic_removes_its_own_only(snapshot: DBStateView, epic_id: u32)
    requires
        snapshot.epics.contains_key(epic_id),
    ensures
        ({
            let after = snapshot.without_epic(epic_id);
            let listed = snapshot.epics[epic_id].stories;
            &&& after.last_item_id == snapshot.last_item_id
            &&& !after.epics.contains_key(epic_id)
            &&& forall|i: int| 0 <= i < listed.len() ==> !after.stories.contains_key(#[trigger] listed[i])
            &&& forall|other: u32|
                other != epic_id && #[trigger] snapshot.epics.contains_key(other)
                    ==> after.epics.contains_key(other) && after.epics[other] == snapshot.epics[other]
            &&& forall|other: u32| #[trigger]
                after.epics.contains_key(other) ==> snapshot.epics.contains_key(other)
            &&& forall|story_id: u32|
                !listed.contains(story_id) && #[trigger] snapshot.stories.contains_key(story_id)
                    ==> after.stories.contains_key(story_id) && after.stories[story_id]
                    == snapshot.stories[story_id]
            &&& forall|story_id: u32| #[trigger]
                after.stories.contains_key(story_id) ==> snapshot.stories.contains_key(story_id)
        }),
{
    let after = snapshot.without_epic(epic_id);
    let listed = snapshot.epics[epic_id].stories;
    assert forall|i: int| 0 <= i < listed.len() implies !after.stories.contains_key(
        #[trigger] listed[i],
    ) by {
        assert(listed.to_set().contains(listed[i]));
    }
}

/// Deleting a story from an epic that lists it once removes it from the list of the
/// epic and from the stories, and nothing else: the epic keeps its other stories in
/// their order and its other fields, and every other epic and every other story stay
/// as they were, and so does the last id.
pub proof fn delete_story_removes_it_only(snapshot: DBStateView, epic_id: u32, story_id: u32)
    requires
        snapshot.owns_story(epic_id, story_id),
        snapshot.epics[epic_id].stories.no_duplicates(),
    ensures
        ({
            let after = snapshot.without_story(epic_id, story_id);
            let before_list = snapshot.epics[epic_id].stories;
            let after_list = after.epics[epic_id].stories;
            &&& after.last_item_id == snapshot.last_item_id
            &&& after.epics.contains_key(epic_id)
            &&& after.epics[epic_id] == (EpicView { stories: after_list, ..snapshot.epics[epic_id] })
            &&& !after_list.contains(story_id)
            &&& after_list == before_list.filter(differs_from(story_id))
            &&& forall|other: u32|
                other != story_id ==> (after_list.contains(other) <==> before_list.contains(other))
            &&& !after.stories.contains_key(story_id)
            &&& forall|other: u32|
                other != story_id && #[trigger] snapshot.stories.contains_key(other)
                    ==> after.stories.contains_key(other) && after.stories[other]
                    == snapshot.stories[other]
            &&& forall|other: u32| #[trigger]
                after.stories.contains_key(other) ==> snapshot.stories.contains_key(other)
            &&& forall|other: u32|
                other != epic_id && #[trigger] snapshot.epics.contains_key(other)
                    ==> after.epics.contains_key(other) && after.epics[other] == snapshot.epics[other]
            &&& forall|other: u32| #[trigger]
                after.epics.contains_key(other) ==> snapshot.epics.contains_key(other)
        }),
{
    let after = snapshot.without_story(epic_id, story_id);
    let before_list = snapshot.epics[epic_id].stories;
    let after_list = after.epics[epic_id].stories;
    let k = choose|k: int| 0 <= k < before_list.len() && before_list[k] == story_id;
    assert(is_first_at(before_list, story_id, k));
    let at = first_position(before_list, story_id);
    assert(is_first_at(before_list, story_id, at));
    assert(after_list == before_list.remove(at));
    assert forall|other: u32| other != story_id implies (after_list.contains(other)
        <==> before_list.contains(other)) by {
        if before_list.contains(other) {
            let i = choose|i: int| 0 <= i < before_list.len() && before_list[i] == other;
            let to = if i < at {
                i
            } else {
                i - 1
            };
            assert(after_list[to] == other);
        }
        if after_list.contains(other) {
            let i = choose|i: int| 0 <= i < after_list.len() && after_list[i] == other;
            let from = if i < at {
                i
            } else {
                i + 1
            };
            assert(before_list[from] == other);
        }
    }
    assert(!after_list.contains(story_id)) by {
        if after_list.contains(story_id) {
            let i = choose|i: int| 0 <= i < after_list.len() && after_list[i] == story_id;
            let from = if i < at {
                i
            } else {
                i + 1
            };
            assert(before_list[from] == before_list[at]);
        }
    }
    removal_is_filter(before_list, story_id, at);
}

/// The test that an id is not `id`.
pub open spec fn differs_from(id: u32) -> spec_fn(u32) -> bool {
    |other: u32| other != id
}

/// A list that does not hold `id` is what of it differs from `id`.
proof fn filter_keeps_others(ids: Seq<u32>, id: u32)
    requires
        !ids.contains(id),
    ensures
        ids.filter(differs_from(id)) == ids,
    decreases ids.len(),
{
    reveal(Seq::filter);
    if ids.len() > 0 {
        let front = ids.drop_last();
        assert(!front.contains(id)) by {
            if front.contains(id) {
                let i = choose|i: int| 0 <= i < front.len() && front[i] == id;
                assert(ids[i] == id);
            }
        }
        filter_keeps_others(front, id);
        assert(ids.last() != id) by {
            assert(ids[ids.len() - 1] == ids.last());
        }
        assert(front.push(ids.last()) =~= ids);
    }
}

/// In a list without repetition, taking out the one occurrence of `id` leaves what
/// differs from `id`, in the same order.
proof fn removal_is_filter(ids: Seq<u32>, id: u32, at: int)
    requires
        ids.no_duplicates(),
        0 <= at < ids.len(),
        ids[at] == id,
    ensures
        ids.remove(at) == ids.filter(differs_from(id)),
    decreases ids.len(),
{
    reveal(Seq::filter);
    let front = ids.drop_last();
    if at == ids.len() - 1 {
        assert(ids.remove(at) =~= front);
        assert(!front.contains(id)) by {
            if front.contains(id) {
                let i = choose|i: int| 0 <= i < front.len() && front[i] == id;
                assert(ids[i] == ids[at]);
            }
        }
        filter_keeps_others(front, id);
    } else {
        removal_is_filter(front, id, at);
        assert(ids.last() != ids[at]);
        assert(ids.remove(at) =~= front.remove(at).push(ids.last()));
    }
}

/// A new status for an epic changes the status of that epic and nothing else: its
/// name, description and stories, every other epic, every story and the last id stay
/// as they were.
pub proof fn epic_status_changes_status_only(snapshot: DBStateView, epic_id: u32, status: Status)
    requires
        snapshot.epics.contains_key(epic_id),
    ensures
        ({
            let after = snapshot.with_epic_status(epic_id, status);
            &&& after.last_item_id == snapshot.last_item_id
            &&& after.stories == snapshot.stories
            &&& after.epics.dom() == snapshot.epics.dom()
            &&& after.epics[epic_id] == (EpicView { status, ..snapshot.epics[epic_id] })
            &&& forall|other: u32|
                other != epic_id && #[trigger] snapshot.epics.contains_key(other)
                    ==> after.epics[other] == snapshot.epics[other]
        }),
{
    let after = snapshot.with_epic_status(epic_id, status);
    assert(after.epics.dom() =~= snapshot.epics.dom());
}

/// A new status for a story changes the status of that story and nothing else: its
/// name and description, every other story, every epic with its list of stories and
/// the last id stay as they were.
pub proof fn story_status_changes_status_only(
    snapshot: DBStateView,
    story_id: u32,
    status: Status,
)
    requires
        snapshot.stories.contains_key(story_id),
    ensures
        ({
            let after = snapshot.with_story_status(story_id, status);
            &&& after.last_item_id == snapshot.last_item_id
            &&& after.epics == snapshot.epics
            &&& after.stories.dom() == snapshot.stories.dom()
            &&& after.stories[story_id] == (crate::models::StoryView {
                status,
                ..snapshot.stories[story_id]
            })
            &&& forall|other: u32|
                other != story_id && #[trigger] snapshot.stories.contains_key(other)
                    ==> after.stories[other] == snapshot.stories[other]
        }),
{
    let after = snapshot.with_story_status(story_id, status);
    assert(after.stories.dom() =~= snapshot.stories.dom());
}

/// A request that the repository refuses changes nothing and returns no id. So does,
/// in particular, the creation of a story under an epic that does not exist.
pub proof fn refused_request_changes_nothing(snapshot: DBStateView, request: Request)
    requires
        snapshot.refusal(request) is Some,
    ensures
        snapshot.after(request) == snapshot,
        snapshot.created_id(request) is None,
{
}

} // verus!
