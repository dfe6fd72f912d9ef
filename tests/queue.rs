use downd::AsyncQueue;

fn queue_of(items: &[&str]) -> AsyncQueue {
    let mut q = AsyncQueue::new();
    for i in items {
        q.push(i.to_string());
    }
    q
}

#[test]
fn queue_operations() {
    let mut q = queue_of(&["a", "b", "c"]);
    assert_eq!(q.len(), 3);
    q.move_up(2);
    assert_eq!(q.contents(), vec!["a", "c", "b"]);
    q.move_down(0);
    assert_eq!(q.contents(), vec!["c", "a", "b"]);
    q.remove(1);
    assert_eq!(q.contents(), vec!["c", "b"]);
    assert_eq!(q.pop(), Some("c".to_string()));
    assert_eq!(q.pop(), Some("b".to_string()));
    assert_eq!(q.pop(), None);
}

#[test]
fn queue_no_ops() {
    let mut q = queue_of(&["a", "b"]);
    q.move_up(0);
    q.move_down(1);
    q.move_up(2);
    q.move_down(5);
    q.remove(2);
    assert_eq!(q.contents(), vec!["a", "b"]);
    let mut e = AsyncQueue::new();
    e.move_up(0);
    e.move_down(0);
    e.remove(0);
    assert_eq!(e.len(), 0);
}

#[test]
fn queue_matches_list_model() {
    let mut q = AsyncQueue::new();
    let mut model: Vec<String> = Vec::new();
    let ops: [(u8, usize); 12] = [(0, 0), (0, 1), (0, 2), (1, 1), (2, 0), (3, 1), (0, 3), (4, 0), (1, 3), (2, 2), (3, 9), (0, 4)];
    for (op, i) in ops {
        match op {
            0 => {
                q.push(format!("u{}", i));
                model.push(format!("u{}", i));
            }
            1 => {
                q.move_up(i);
                if i >= 1 && i < model.len() {
                    model.swap(i, i - 1);
                }
            }
            2 => {
                q.move_down(i);
                if i + 1 < model.len() {
                    model.swap(i, i + 1);
                }
            }
            3 => {
                q.remove(i);
                if i < model.len() {
                    model.remove(i);
                }
            }
            _ => {
                let got = q.pop();
                let want = if model.is_empty() { None } else { Some(model.remove(0)) };
                assert_eq!(got, want);
            }
        }
        assert_eq!(q.contents(), model);
    }
}
