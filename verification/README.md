# clubsite

The website of a disc golf club: news posts on the front page, editable
pages with content versions, bag tag standings, and an admin area for
admins and superadmins.

- `src/` is the library, verified with Verus: the session cookie
  (`decimal`, `auth`), password hashing and login (`password`, `auth`),
  the access guards and the route table (`auth`, `routes`), paging through
  posts (`pagination`), content versions (`pages`), file paths (`files`),
  the markdown filter (`markdown`), settings (`config`) and the standings
  reply (`metrix`).
- `app/` is the Rocket server around it: the database (MySQL through
  diesel), templates (tera), the HTTP handlers and request guards, and the
  call to the standings service.
- `tests/` exercises the library.
